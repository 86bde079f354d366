use qldb_shell::command::{
    backslash, classify_input, is_special_command, parse_command, parse_meta_command, Backslash,
    Input, ShellCommand,
};
use qldb_shell::error::ShellError;
use qldb_shell::modes::{EditMode, SetCommand, TrueFalse};

fn words(ws: &[&str]) -> Vec<String> {
    ws.iter().map(|w| w.to_string()).collect()
}

#[test]
fn set_input_mode() {
    let parsed = backslash(&words(&["set", "edit-mode", "emacs"])).unwrap();
    if let Backslash::SetValue(SetCommand::EditMode(mode)) = parsed {
        assert!(matches!(mode, EditMode::Emacs));
    } else {
        panic!("failure, parsed to: {:?}", parsed);
    }
}

#[test]
fn set_terminator_required() {
    let parsed = parse_meta_command("set  terminator-required false").unwrap();
    assert!(matches!(
        parsed,
        Backslash::SetValue(SetCommand::TerminatorRequired(TrueFalse::False))
    ));
}

#[test]
fn use_command_options() {
    let parsed = parse_meta_command("use -l my-ledger --region us-east-1 -p dev").unwrap();
    match parsed {
        Backslash::Use(u) => {
            assert_eq!(u.ledger.as_deref(), Some("my-ledger"));
            assert_eq!(u.region.as_deref(), Some("us-east-1"));
            assert_eq!(u.profile.as_deref(), Some("dev"));
            assert!(u.qldb_session_endpoint.is_none());
        }
        other => panic!("{:?}", other),
    }
}

#[test]
fn bad_meta_commands() {
    for line in ["set edit-mode nano", "use -l", "use -l a -l b", "use --color red", "frobnicate", ""] {
        match parse_meta_command(line) {
            Err(ShellError::UsageError { message }) => {
                assert_eq!(message, "Unknown command, enter 'help' for a list of commands.")
            }
            other => panic!("{}: {:?}", line, other),
        }
    }
}

#[test]
fn special_commands() {
    for line in ["help", "QUIT", "exit", "Start Transaction", "begin", "abort", "COMMIT"] {
        assert!(is_special_command(line), "{}", line);
    }
    for line in ["select 1", "env", "status", "show tables", "?"] {
        assert!(!is_special_command(line), "{}", line);
    }
}

#[test]
fn command_words() {
    assert_eq!(parse_command("HELP"), ShellCommand::Help);
    assert_eq!(parse_command("?"), ShellCommand::Help);
    assert_eq!(parse_command("exit"), ShellCommand::Quit);
    assert_eq!(parse_command("begin"), ShellCommand::StartTransaction);
    assert_eq!(parse_command("Abort"), ShellCommand::Abort);
    assert_eq!(parse_command("commit"), ShellCommand::Commit);
    assert_eq!(parse_command("env"), ShellCommand::Env);
    assert_eq!(parse_command("show tables"), ShellCommand::ShowTables);
    assert_eq!(parse_command("status"), ShellCommand::Status);
    assert_eq!(parse_command("set edit-mode vi"), ShellCommand::Other);
}

#[test]
fn input_kinds() {
    assert!(matches!(classify_input(""), Input::Empty));
    match classify_input("\\status") {
        Input::Command(c) => assert_eq!(c, "status"),
        other => panic!("{:?}", other),
    }
    match classify_input("Commit") {
        Input::Command(c) => assert_eq!(c, "Commit"),
        other => panic!("{:?}", other),
    }
    match classify_input("select * from t") {
        Input::Statement(s) => assert_eq!(s, "select * from t"),
        other => panic!("{:?}", other),
    }
}

#[test]
fn use_command_endpoint_is_a_url() {
    match parse_meta_command("use --qldb-session-endpoint HTTPS://Session.Example.com").unwrap() {
        Backslash::Use(u) => {
            assert_eq!(u.qldb_session_endpoint.as_deref(), Some("https://session.example.com/"));
            assert!(u.ledger.is_none());
        }
        other => panic!("{:?}", other),
    }
    assert!(parse_meta_command("use -s not-a-url").is_err());
}
