use qldb_shell::autocommit::{auto_begin, auto_follow_up, route_statement, FollowUp, Route};
use qldb_shell::classify::{classify, ErrorKind, Severity, StatementError};
use qldb_shell::error::ShellError;
use qldb_shell::transaction::{
    conclude, transaction_ended, worker_step, Command, Coordinator, Ending, Phase,
    TransactionError, TransactionOutcome, WorkerStep,
};

/// A transaction body run by hand: it records what it executes and answers
/// each statement with `answer`.
struct FakeBody {
    executed: Vec<String>,
    ended: Option<Ending>,
}

impl FakeBody {
    fn new() -> FakeBody {
        FakeBody { executed: Vec::new(), ended: None }
    }

    fn receive(
        &mut self,
        cmd: Option<Command>,
        answer: &dyn Fn(&str) -> Result<usize, StatementError>,
    ) -> Option<Result<usize, StatementError>> {
        assert!(self.ended.is_none());
        match worker_step(cmd) {
            WorkerStep::Execute(text) => {
                let result = answer(&text);
                self.executed.push(text);
                Some(result)
            }
            WorkerStep::Finish(ending) => {
                self.ended = Some(ending);
                None
            }
        }
    }
}

fn usage_message(e: &ShellError) -> String {
    match e {
        ShellError::UsageError { message } => message.clone(),
        ShellError::Bug(m) => panic!("expected a usage error, got a bug report: {}", m),
    }
}

fn ok_answer(text: &str) -> Result<usize, StatementError> {
    Ok(text.len())
}

fn invalid_session(_text: &str) -> Result<usize, StatementError> {
    Err(StatementError { kind: ErrorKind::InvalidSession, message: "session expired".to_string() })
}

fn conflict(_text: &str) -> Result<usize, StatementError> {
    Err(StatementError { kind: ErrorKind::OccConflict, message: "conflict".to_string() })
}

#[test]
fn statements_reach_the_body_in_send_order() {
    let mut c = Coordinator::new();
    let mut body = FakeBody::new();
    c.start().unwrap();
    let texts = ["insert into t values (1)", "select * from t", "delete from t"];
    for t in texts.iter() {
        let cmd = c.execute_statement(t.to_string()).unwrap();
        assert_eq!(c.phase(), Phase::Executing);
        // no second command while one is in flight
        assert!(matches!(c.execute_statement("x".to_string()), Err(ShellError::Bug(_))));
        assert!(matches!(c.commit(), Err(ShellError::Bug(_))));
        let reply = body.receive(Some(cmd), &ok_answer);
        assert_eq!(c.statement_finished(reply).unwrap(), t.len());
        assert_eq!(c.phase(), Phase::Open);
    }
    let cmd = c.commit().unwrap();
    assert!(body.receive(Some(cmd), &ok_answer).is_none());
    assert_eq!(body.executed, texts.iter().map(|t| t.to_string()).collect::<Vec<_>>());
    assert_eq!(body.ended, Some(Ending::Commit));
    assert_eq!(c.phase(), Phase::Idle);
}

#[test]
fn commit_or_abort_without_transaction_is_usage_error() {
    let mut c = Coordinator::new();
    assert_eq!(usage_message(&c.commit().unwrap_err()), "No active transaction");
    assert_eq!(usage_message(&c.abort().unwrap_err()), "No active transaction");
    assert!(!c.is_open());
}

#[test]
fn fatal_error_discards_transaction() {
    let mut c = Coordinator::new();
    let mut body = FakeBody::new();
    c.start().unwrap();
    let cmd = c.execute_statement("select 1".to_string()).unwrap();
    let reply = body.receive(Some(cmd), &invalid_session);
    match c.statement_finished(reply) {
        Err(TransactionError::Statement(e)) => assert_eq!(e.kind, ErrorKind::InvalidSession),
        other => panic!("unexpected: {:?}", other),
    }
    assert_eq!(c.phase(), Phase::Idle);
    assert_eq!(usage_message(&c.commit().unwrap_err()), "No active transaction");
    assert_eq!(usage_message(&c.abort().unwrap_err()), "No active transaction");
}

#[test]
fn recoverable_error_keeps_transaction_open() {
    let mut c = Coordinator::new();
    let mut body = FakeBody::new();
    c.start().unwrap();
    let cmd = c.execute_statement("insert into t values (1)".to_string()).unwrap();
    let reply = body.receive(Some(cmd), &conflict);
    assert!(matches!(c.statement_finished(reply), Err(TransactionError::Statement(_))));
    assert_eq!(c.phase(), Phase::Open);
    let cmd = c.abort().unwrap();
    assert!(matches!(cmd, Command::Abort));
    assert!(body.receive(Some(cmd), &ok_answer).is_none());
    assert_eq!(body.ended, Some(Ending::Abort));
}

#[test]
fn dropped_handle_cancels_and_allows_new_start() {
    let mut c = Coordinator::new();
    c.start().unwrap();
    let _cmd = c.execute_statement("select 1".to_string()).unwrap();
    assert!(c.cancel());
    assert_eq!(c.phase(), Phase::Idle);
    assert!(!c.cancel());
    assert!(c.start().is_ok());
    assert_eq!(c.phase(), Phase::Open);
}

#[test]
fn committed_value_passes_through() {
    let outcome = conclude(Ending::Commit, 42u32);
    assert_eq!(outcome, TransactionOutcome::Committed(42u32));
    match transaction_ended(Some(Ok(outcome))) {
        Ok(TransactionOutcome::Committed(v)) => assert_eq!(v, 42),
        other => panic!("unexpected: {:?}", other),
    }
    assert_eq!(conclude(Ending::Abort, 42u32), TransactionOutcome::Aborted);
}

#[test]
fn scenario_a_start_execute_commit() {
    let mut c = Coordinator::new();
    let mut body = FakeBody::new();
    c.start().unwrap();
    let cmd = c.execute_statement("insert into t values (1)".to_string()).unwrap();
    let reply = body.receive(Some(cmd), &ok_answer);
    assert!(c.statement_finished(reply).is_ok());
    let cmd = c.commit().unwrap();
    assert!(matches!(cmd, Command::Commit));
    assert!(body.receive(Some(cmd), &ok_answer).is_none());
    let ending = body.ended.unwrap();
    let ended = transaction_ended::<()>(Some(Ok(conclude(ending, ()))));
    assert!(matches!(ended, Ok(TransactionOutcome::Committed(()))));
}

#[test]
fn scenario_b_auto_commit_wraps_statement() {
    let mut c = Coordinator::new();
    let mut body = FakeBody::new();
    assert_eq!(route_statement(c.is_open(), true).unwrap(), Route::AutoCommit);
    let cmd = auto_begin(&mut c, "select 1".to_string()).unwrap();
    let reply = body.receive(Some(cmd), &ok_answer);
    let answer = c.statement_finished(reply);
    match auto_follow_up(&mut c, answer) {
        FollowUp::Commit { results, command } => {
            assert_eq!(results, 8);
            assert!(body.receive(Some(command), &ok_answer).is_none());
        }
        other => panic!("unexpected: {:?}", other),
    }
    assert_eq!(body.executed, vec!["select 1".to_string()]);
    assert_eq!(body.ended, Some(Ending::Commit));
    assert_eq!(c.phase(), Phase::Idle);
}

#[test]
fn auto_commit_aborts_after_recoverable_failure() {
    let mut c = Coordinator::new();
    let mut body = FakeBody::new();
    let cmd = auto_begin(&mut c, "insert into t values (1)".to_string()).unwrap();
    let reply = body.receive(Some(cmd), &conflict);
    let answer = c.statement_finished(reply);
    match auto_follow_up(&mut c, answer) {
        FollowUp::AbortThenFail { error, abort } => {
            assert!(matches!(error, TransactionError::Statement(_)));
            let command = abort.expect("an abort is sent");
            assert!(matches!(command, Command::Abort));
            assert!(body.receive(Some(command), &ok_answer).is_none());
        }
        other => panic!("unexpected: {:?}", other),
    }
    assert_eq!(body.ended, Some(Ending::Abort));
    assert_eq!(c.phase(), Phase::Idle);
}

#[test]
fn auto_commit_after_fatal_failure_sends_no_abort() {
    let mut c = Coordinator::new();
    let mut body = FakeBody::new();
    let cmd = auto_begin(&mut c, "select 1".to_string()).unwrap();
    let reply = body.receive(Some(cmd), &invalid_session);
    let answer = c.statement_finished(reply);
    match auto_follow_up(&mut c, answer) {
        FollowUp::AbortThenFail { error, abort } => {
            assert!(matches!(error, TransactionError::Statement(_)));
            assert!(abort.is_none());
        }
        other => panic!("unexpected: {:?}", other),
    }
    assert_eq!(c.phase(), Phase::Idle);
}

#[test]
fn scenario_c_no_auto_commit_is_usage_error() {
    let c = Coordinator::new();
    let e = route_statement(c.is_open(), false).unwrap_err();
    assert_eq!(
        usage_message(&e),
        "No active transaction and not in auto-commit mode. Start a transaction with 'start transaction' or 'begin'"
    );
    assert!(usage_message(&e).to_lowercase().starts_with("no active transaction and not in auto-commit mode"));
}

#[test]
fn open_transaction_routes_inside() {
    assert_eq!(route_statement(true, false).unwrap(), Route::InTransaction);
    assert_eq!(route_statement(true, true).unwrap(), Route::InTransaction);
}

#[test]
fn scenario_d_invalid_session_then_commit() {
    let mut c = Coordinator::new();
    let mut body = FakeBody::new();
    c.start().unwrap();
    let cmd = c.execute_statement("select 1".to_string()).unwrap();
    let reply = body.receive(Some(cmd), &invalid_session);
    assert!(c.statement_finished(reply).is_err());
    assert!(!c.is_open());
    assert_eq!(usage_message(&c.commit().unwrap_err()), "No active transaction");
}

#[test]
fn scenario_e_drop_mid_session_then_start() {
    let mut c = Coordinator::new();
    let mut body = FakeBody::new();
    c.start().unwrap();
    let cmd = c.execute_statement("select 1".to_string()).unwrap();
    let reply = body.receive(Some(cmd), &ok_answer);
    c.statement_finished(reply).unwrap();
    // the handle is dropped: the body is cancelled
    assert!(c.cancel());
    // a closed command channel ends the body with an abort
    assert!(body.receive(None, &ok_answer).is_none());
    assert_eq!(body.ended, Some(Ending::Abort));
    assert!(c.start().is_ok());
}

#[test]
fn start_twice_is_usage_error() {
    let mut c = Coordinator::new();
    c.start().unwrap();
    assert_eq!(usage_message(&c.start().unwrap_err()), "Transaction already open");
    assert!(c.is_open());
}

#[test]
fn statement_without_transaction_is_usage_error() {
    let mut c = Coordinator::new();
    let e = c.execute_statement("select 1".to_string()).unwrap_err();
    assert_eq!(usage_message(&e), "No active transaction");
    assert_eq!(c.phase(), Phase::Idle);
}

#[test]
fn closed_result_channel_reports_stopped_worker() {
    let mut c = Coordinator::new();
    c.start().unwrap();
    c.execute_statement("select 1".to_string()).unwrap();
    assert!(matches!(c.statement_finished::<usize>(None), Err(TransactionError::WorkerStopped)));
    assert_eq!(c.phase(), Phase::Idle);
    assert!(matches!(transaction_ended::<()>(None), Err(TransactionError::WorkerStopped)));
}

#[test]
fn reply_without_statement_is_bug() {
    let mut c = Coordinator::new();
    c.start().unwrap();
    match c.statement_finished::<usize>(Some(Ok(1))) {
        Err(TransactionError::Shell(ShellError::Bug(m))) => {
            assert_eq!(m, "no statement is awaiting a result")
        }
        other => panic!("unexpected: {:?}", other),
    }
    assert_eq!(c.phase(), Phase::Open);
}

#[test]
fn classifier_kinds() {
    assert_eq!(classify(ErrorKind::BadRequest), Severity::Fatal);
    assert_eq!(classify(ErrorKind::InvalidSession), Severity::Fatal);
    assert_eq!(classify(ErrorKind::OccConflict), Severity::Recoverable);
    assert_eq!(classify(ErrorKind::RateExceeded), Severity::Recoverable);
    assert_eq!(classify(ErrorKind::CapacityExceeded), Severity::Recoverable);
    assert_eq!(classify(ErrorKind::LimitExceeded), Severity::Recoverable);
    assert_eq!(classify(ErrorKind::Other), Severity::Recoverable);
    let e = StatementError { kind: ErrorKind::BadRequest, message: "bad".to_string() };
    assert_eq!(e.severity(), Severity::Fatal);
}

#[test]
fn worker_steps() {
    assert!(matches!(
        worker_step(Some(Command::ExecuteStatement("select 1".to_string()))),
        WorkerStep::Execute(ref t) if t == "select 1"
    ));
    assert!(matches!(worker_step(Some(Command::Commit)), WorkerStep::Finish(Ending::Commit)));
    assert!(matches!(worker_step(Some(Command::Abort)), WorkerStep::Finish(Ending::Abort)));
    assert!(matches!(worker_step(None), WorkerStep::Finish(Ending::Abort)));
}
