use qldb_shell::config::{ConfigField, ConfigValue, LedgerConfig, ShellConfig, UiConfig};
use qldb_shell::error::ShellError;
use qldb_shell::modes::{EditMode, FormatMode};

fn field(name: &str, value: ConfigValue) -> ConfigField {
    ConfigField { name: name.to_string(), value }
}

fn text(s: &str) -> ConfigValue {
    ConfigValue::Text(s.to_string())
}

fn usage_message<T: std::fmt::Debug>(r: Result<T, ShellError>) -> String {
    match r {
        Err(ShellError::UsageError { message }) => message,
        other => panic!("expected a usage error: {:?}", other),
    }
}

#[test]
fn config_load_empty_config() {
    let config = ShellConfig::from_values(&vec![]).unwrap();
    assert!(config.default_ledger.is_none());
    assert!(config.ledgers.is_none());
    assert!(!config.ui.auto_commit);
    let loaded = ShellConfig::load_default(None).unwrap();
    assert!(loaded.ledgers.is_none());
    assert_eq!(loaded.ui.format, FormatMode::Ion);
}

#[test]
fn load_sample_config() {
    // { default_ledger: "my-ledger", ui: { format: "table" }, ledgers: [ { name: "my-ledger" } ] }
    let values = vec![ConfigValue::Struct(vec![
        field("default_ledger", text("my-ledger")),
        field("ui", ConfigValue::Struct(vec![field("format", text("table"))])),
        field(
            "ledgers",
            ConfigValue::List(vec![ConfigValue::Struct(vec![field("name", text("my-ledger"))])]),
        ),
    ])];
    let config = ShellConfig::from_values(&values).unwrap();

    assert_eq!(&Some("my-ledger"), &config.default_ledger.as_deref());
    assert_eq!(config.ui.format, FormatMode::Table);
    assert!(config.ui.auto_commit);
    assert!(config.ui.display_welcome);
    assert!(!config.ui.terminator_required);
    let ledgers = config.ledgers.unwrap();
    match ledgers.first() {
        Some(ledger) => {
            assert_eq!("my-ledger", &ledger.name);
        }
        None => panic!("config did not configure `my-ledger`"),
    };
}

#[test]
fn ui_entries() {
    let ui = UiConfig::from_fields(&vec![
        field("auto_commit", ConfigValue::Bool(false)),
        field("prompt", text("$LEDGER> ")),
        field("edit_mode", text("Vi")),
        field("display_query_metrics", ConfigValue::Bool(false)),
        field("terminator_required", ConfigValue::Bool(true)),
    ])
    .unwrap();
    assert!(!ui.auto_commit);
    assert_eq!(ui.prompt.as_deref(), Some("$LEDGER> "));
    assert_eq!(ui.edit_mode, EditMode::Vi);
    assert_eq!(ui.format, FormatMode::Ion);
    assert!(ui.display_welcome);
    assert!(ui.display_ctrl_signals);
    assert!(!ui.display_query_metrics);
    assert!(ui.terminator_required);
}

#[test]
fn ui_entry_errors() {
    assert_eq!(
        usage_message(UiConfig::from_fields(&vec![field("auto_commit", text("yes"))])),
        "`ui.auto_commit` should be a bool"
    );
    assert_eq!(
        usage_message(UiConfig::from_fields(&vec![field("format", text("csv"))])),
        "csv is not a valid format mode"
    );
    assert_eq!(
        usage_message(UiConfig::from_fields(&vec![field("edit_mode", text("nano"))])),
        "nano is not a valid edit mode"
    );
    assert_eq!(
        usage_message(UiConfig::from_fields(&vec![field("prompt", ConfigValue::Bool(true))])),
        "`ui.prompt` should be a string"
    );
}

#[test]
fn ledger_entries() {
    let l = LedgerConfig::from_fields(&vec![
        field("name", text("prod")),
        field("region", text("eu-west-1")),
    ])
    .unwrap();
    assert_eq!(l.name, "prod");
    assert_eq!(l.region.as_deref(), Some("eu-west-1"));
    assert!(l.profile.is_none());
    assert_eq!(
        usage_message(LedgerConfig::from_fields(&vec![field("region", text("x"))])),
        "`ledger.name` is a required field"
    );
    assert_eq!(
        usage_message(LedgerConfig::from_fields(&vec![field("name", ConfigValue::Bool(true))])),
        "`ledger.name` should be a string"
    );
}

#[test]
fn top_level_errors() {
    assert_eq!(
        usage_message(ShellConfig::from_values(&vec![text("hello")])),
        "config should contain a single struct (found a String)"
    );
    assert_eq!(
        usage_message(ShellConfig::from_values(&vec![
            ConfigValue::Struct(vec![]),
            ConfigValue::Struct(vec![])
        ])),
        "config should contain a single struct (found multiple)"
    );
    assert_eq!(
        usage_message(ShellConfig::from_values(&vec![ConfigValue::Struct(vec![field(
            "ui",
            ConfigValue::List(vec![])
        )])])),
        "`ui` should be a struct"
    );
    assert_eq!(
        usage_message(ShellConfig::from_values(&vec![ConfigValue::Struct(vec![field(
            "ledgers",
            ConfigValue::List(vec![text("a")])
        )])])),
        "`ledgers` should be a list of structs"
    );
    assert_eq!(
        usage_message(ShellConfig::from_fields(&vec![field("ledgers", text("a"))])),
        "`ledgers` should be a list"
    );
}

#[test]
fn empty_ledger_list_is_none() {
    let c = ShellConfig::from_fields(&vec![field("ledgers", ConfigValue::List(vec![]))]).unwrap();
    assert!(c.ledgers.is_none());
}
