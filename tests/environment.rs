use qldb_shell::config::{LedgerConfig, UiConfig};
use qldb_shell::environment::{
    apply_noninteractive_defaults, build_prompt, reload_current_ledger_config,
    resolve_ledger_name,
};
use qldb_shell::error::ShellError;

fn ledger(name: &str, profile: Option<&str>, region: Option<&str>) -> LedgerConfig {
    LedgerConfig {
        name: name.to_string(),
        profile: profile.map(|s| s.to_string()),
        region: region.map(|s| s.to_string()),
        qldb_session_endpoint: None,
    }
}

#[test]
fn default_prompt_shows_transaction() {
    assert_eq!(build_prompt(&None, "us-east-1", "ledger", false), "qldb> ");
    assert_eq!(build_prompt(&None, "us-east-1", "ledger", true), "qldb *> ");
}

#[test]
fn custom_prompt_fills_in() {
    let p = Some("$REGION/$LEDGER$ACTIVE_TRANSACTION $LEDGER> ".to_string());
    assert_eq!(build_prompt(&p, "eu-west-1", "prod", true), "eu-west-1/prod * prod> ");
}

#[test]
fn ledger_name_resolution() {
    assert_eq!(resolve_ledger_name(Some("a".to_string()), &Some("b".to_string())).unwrap(), "a");
    assert_eq!(resolve_ledger_name(None, &Some("b".to_string())).unwrap(), "b");
    match resolve_ledger_name(None, &None) {
        Err(ShellError::UsageError { message }) => assert_eq!(
            message,
            "`--ledger` was not specified and there is no `default_ledger` in your config"
        ),
        other => panic!("{:?}", other),
    }
}

#[test]
fn reload_completes_missing_settings() {
    let mut current = ledger("prod", Some("mine"), None);
    let configured = Some(vec![
        ledger("test", Some("t"), Some("us-west-2")),
        ledger("prod", Some("theirs"), Some("eu-west-1")),
    ]);
    assert!(reload_current_ledger_config(&mut current, &configured));
    assert_eq!(current.profile.as_deref(), Some("mine"));
    assert_eq!(current.region.as_deref(), Some("eu-west-1"));

    let mut other = ledger("dev", None, None);
    assert!(!reload_current_ledger_config(&mut other, &configured));
    assert!(other.region.is_none());
    assert!(!reload_current_ledger_config(&mut other, &None));
}

#[test]
fn noninteractive_defaults() {
    let mut ui = UiConfig::default();
    ui.display_welcome = true;
    ui.display_ctrl_signals = true;
    ui.auto_commit = true;
    apply_noninteractive_defaults(&mut ui);
    assert!(!ui.display_welcome);
    assert!(!ui.display_ctrl_signals);
    assert!(ui.auto_commit);
}

use qldb_shell::command::{break_action, document_noun, parse_meta_command, Backslash, BreakAction};
use qldb_shell::environment::{apply_set_command, apply_use_command};
use qldb_shell::modes::{EditMode, SetCommand, TrueFalse};

#[test]
fn set_command_updates_ui() {
    let mut ui = UiConfig::default();
    apply_set_command(&mut ui, SetCommand::EditMode(EditMode::Vi));
    assert_eq!(ui.edit_mode, EditMode::Vi);
    apply_set_command(&mut ui, SetCommand::TerminatorRequired(TrueFalse::True));
    assert!(ui.terminator_required);
    assert_eq!(ui.edit_mode, EditMode::Vi);
}

#[test]
fn use_command_updates_ledger() {
    let mut current = ledger("prod", Some("mine"), Some("eu-west-1"));
    match parse_meta_command("use -l test -r us-east-2").unwrap() {
        Backslash::Use(u) => apply_use_command(&mut current, u),
        other => panic!("{:?}", other),
    }
    assert_eq!(current.name, "test");
    assert_eq!(current.region.as_deref(), Some("us-east-2"));
    assert_eq!(current.profile.as_deref(), Some("mine"));
}

#[test]
fn end_of_input() {
    assert_eq!(break_action(true), BreakAction::AbortTransaction);
    assert_eq!(break_action(false), BreakAction::Exit);
}

#[test]
fn document_nouns() {
    assert_eq!(document_noun(1), "document");
    assert_eq!(document_noun(0), "documents");
    assert_eq!(document_noun(3), "documents");
}
