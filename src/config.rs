//! The shell's configuration file, read from a tree of plain values: what
//! each entry means, which types it takes, and the defaults of missing ones.
use crate::error::{usage_error, ShellError};
use crate::modes::{edit_mode_word, format_word, invalid_edit_mode_message, EditMode, FormatMode};
use crate::text::{lower_of, lowercase, same_text};
use vstd::prelude::*;
use vstd::string::StringExecFns;

verus! {

/// A value of the configuration file.
#[derive(Debug)]
pub enum ConfigValue {
    Bool(bool),
    Text(String),
    Struct(Vec<ConfigField>),
    List(Vec<ConfigValue>),
    /// A value of any other type, with the name of that type.
    Other(String),
}

/// A named field of a struct value.
#[derive(Debug)]
pub struct ConfigField {
    pub name: String,
    pub value: ConfigValue,
}

/// The value of the first field named `key` at or after position `i`.
pub open spec fn lookup_from(f: Seq<ConfigField>, key: Seq<char>, i: int) -> Option<ConfigValue>
    decreases f.len() - i,
{
    if i < 0 || i >= f.len() {
        None
    } else if f[i].name@ == key {
        Some(f[i].value)
    } else {
        lookup_from(f, key, i + 1)
    }
}

/// The value of the first field named `key`.
pub open spec fn lookup(f: Seq<ConfigField>, key: Seq<char>) -> Option<ConfigValue> {
    lookup_from(f, key, 0)
}

/// A boolean entry, `default` when it is missing; `None` when it has another type.
pub open spec fn bool_entry(f: Seq<ConfigField>, key: Seq<char>, default: bool) -> Option<bool> {
    match lookup(f, key) {
        None => Some(default),
        Some(ConfigValue::Bool(b)) => Some(b),
        Some(_) => None,
    }
}

/// A text entry, `Some(None)` when it is missing; `None` when it has another type.
pub open spec fn text_entry(f: Seq<ConfigField>, key: Seq<char>) -> Option<Option<String>> {
    match lookup(f, key) {
        None => Some(None),
        Some(ConfigValue::Text(s)) => Some(Some(s)),
        Some(_) => None,
    }
}

/// The first field named `key`, if any.
pub fn get<'a>(fields: &'a Vec<ConfigField>, key: &str) -> (r: Option<&'a ConfigValue>)
    ensures
        match r {
            Some(v) => lookup(fields@, key@) == Some(*v),
            None => lookup(fields@, key@) is None,
        },
{
    let n = fields.len();
    let mut i: usize = 0;
    while i < n
        invariant
            n == fields@.len(),
            i <= n,
            lookup(fields@, key@) == lookup_from(fields@, key@, i as int),
        decreases n - i,
    {
        if same_text(fields[i].name.as_str(), key) {
            return Some(&fields[i].value);
        }
        i = i + 1;
    }
    None
}

fn read_bool(fields: &Vec<ConfigField>, key: &str, default: bool, message: &str) -> (r: Result<
    bool,
    ShellError,
>)
    ensures
        match bool_entry(fields@, key@, default) {
            Some(b) => r == Ok::<bool, ShellError>(b),
            None => r matches Err(e) && e.is_usage(message@),
        },
{
    match get(fields, key) {
        None => Ok(default),
        Some(ConfigValue::Bool(b)) => Ok(*b),
        Some(_) => Err(usage_error(message)),
    }
}

fn read_text(fields: &Vec<ConfigField>, key: &str, message: &str) -> (r: Result<
    Option<String>,
    ShellError,
>)
    ensures
        match text_entry(fields@, key@) {
            Some(t) => r == Ok::<Option<String>, ShellError>(t),
            None => r matches Err(e) && e.is_usage(message@),
        },
{
    match get(fields, key) {
        None => Ok(None),
        Some(ConfigValue::Text(s)) => Ok(Some(s.clone())),
        Some(_) => Err(usage_error(message)),
    }
}

/// The settings of the user interface.
#[derive(Debug, Clone)]
pub struct UiConfig {
    pub auto_commit: bool,
    pub prompt: Option<String>,
    pub format: FormatMode,
    pub edit_mode: EditMode,
    pub display_welcome: bool,
    pub display_ctrl_signals: bool,
    pub display_query_metrics: bool,
    pub terminator_required: bool,
}

impl Default for UiConfig {
    fn default() -> (r: UiConfig)
        ensures
            r == (UiConfig {
                auto_commit: false,
                prompt: None,
                format: FormatMode::Ion,
                edit_mode: EditMode::Emacs,
                display_welcome: false,
                display_ctrl_signals: false,
                display_query_metrics: false,
                terminator_required: false,
            }),
    {
        UiConfig {
            auto_commit: false,
            prompt: None,
            format: FormatMode::Ion,
            edit_mode: EditMode::Emacs,
            display_welcome: false,
            display_ctrl_signals: false,
            display_query_metrics: false,
            terminator_required: false,
        }
    }
}

pub open spec fn invalid_format_message(s: Seq<char>) -> Seq<char> {
    s + " is not a valid format mode"@
}

/// The `format` entry of `ui`: Ion when missing.
pub open spec fn format_entry(f: Seq<ConfigField>) -> Result<FormatMode, Seq<char>> {
    match text_entry(f, "format"@) {
        None => Err("`ui.format` should be a string"@),
        Some(None) => Ok(FormatMode::Ion),
        Some(Some(s)) => match format_word(lower_of(s@)) {
            Some(m) => Ok(m),
            None => Err(invalid_format_message(s@)),
        },
    }
}

/// The `edit_mode` entry of `ui`: Emacs when missing.
pub open spec fn edit_mode_entry(f: Seq<ConfigField>) -> Result<EditMode, Seq<char>> {
    match text_entry(f, "edit_mode"@) {
        None => Err("`ui.edit_mode` should be a string"@),
        Some(None) => Ok(EditMode::Emacs),
        Some(Some(s)) => match edit_mode_word(lower_of(s@)) {
            Some(m) => Ok(m),
            None => Err(invalid_edit_mode_message(s@)),
        },
    }
}

/// The `ui` struct, its entries checked in order: the message of the first
/// that is wrong, or the settings with the defaults of missing entries.
pub open spec fn ui_config_spec(f: Seq<ConfigField>) -> Result<UiConfig, Seq<char>> {
    if bool_entry(f, "auto_commit"@, true) is None {
        Err("`ui.auto_commit` should be a bool"@)
    } else if text_entry(f, "prompt"@) is None {
        Err("`ui.prompt` should be a string"@)
    } else if format_entry(f) is Err {
        Err(format_entry(f)->Err_0)
    } else if edit_mode_entry(f) is Err {
        Err(edit_mode_entry(f)->Err_0)
    } else if bool_entry(f, "display_welcome"@, true) is None {
        Err("`ui.display_welcome` should be a bool"@)
    } else if bool_entry(f, "display_ctrl_signals"@, true) is None {
        Err("`ui.display_ctrl_signals` should be a bool"@)
    } else if bool_entry(f, "display_query_metrics"@, true) is None {
        Err("`ui.display_query_metrics` should be a bool"@)
    } else if bool_entry(f, "terminator_required"@, false) is None {
        Err("`ui.terminator_required` should be a bool"@)
    } else {
        Ok(
            UiConfig {
                auto_commit: bool_entry(f, "auto_commit"@, true)->0,
                prompt: text_entry(f, "prompt"@)->0,
                format: format_entry(f)->Ok_0,
                edit_mode: edit_mode_entry(f)->Ok_0,
                display_welcome: bool_entry(f, "display_welcome"@, true)->0,
                display_ctrl_signals: bool_entry(f, "display_ctrl_signals"@, true)->0,
                display_query_metrics: bool_entry(f, "display_query_metrics"@, true)->0,
                terminator_required: bool_entry(f, "terminator_required"@, false)->0,
            },
        )
    }
}

/// Holds when `r` is the result that `spec` describes, with usage errors.
pub open spec fn agrees<T>(r: Result<T, ShellError>, spec: Result<T, Seq<char>>) -> bool {
    match spec {
        Ok(v) => r == Ok::<T, ShellError>(v),
        Err(m) => r matches Err(e) && e.is_usage(m),
    }
}

impl UiConfig {
    /// Reads the fields of the `ui` struct.
    pub fn from_fields(f: &Vec<ConfigField>) -> (r: Result<UiConfig, ShellError>)
        ensures
            agrees(r, ui_config_spec(f@)),
    {
        let auto_commit = read_bool(f, "auto_commit", true, "`ui.auto_commit` should be a bool")?;
        let prompt = read_text(f, "prompt", "`ui.prompt` should be a string")?;
        let format = match read_text(f, "format", "`ui.format` should be a string")? {
            None => FormatMode::Ion,
            Some(s) => {
                let lower = lowercase(s.as_str());
                match FormatMode::from_lowercase(lower.as_str()) {
                    Some(m) => m,
                    None => {
                        let message = s.concat(" is not a valid format mode");
                        return Err(ShellError::UsageError { message });
                    },
                }
            },
        };
        let edit_mode = match read_text(f, "edit_mode", "`ui.edit_mode` should be a string")? {
            None => EditMode::Emacs,
            Some(s) => EditMode::from_str(s.as_str())?,
        };
        let display_welcome = read_bool(
            f,
            "display_welcome",
            true,
            "`ui.display_welcome` should be a bool",
        )?;
        let display_ctrl_signals = read_bool(
            f,
            "display_ctrl_signals",
            true,
            "`ui.display_ctrl_signals` should be a bool",
        )?;
        let display_query_metrics = read_bool(
            f,
            "display_query_metrics",
            true,
            "`ui.display_query_metrics` should be a bool",
        )?;
        let terminator_required = read_bool(
            f,
            "terminator_required",
            false,
            "`ui.terminator_required` should be a bool",
        )?;
        Ok(
            UiConfig {
                auto_commit,
                prompt,
                format,
                edit_mode,
                display_welcome,
                display_ctrl_signals,
                display_query_metrics,
                terminator_required,
            },
        )
    }
}

/// The settings of one ledger.
#[derive(Debug, Clone)]
pub struct LedgerConfig {
    pub name: String,
    pub profile: Option<String>,
    pub region: Option<String>,
    pub qldb_session_endpoint: Option<String>,
}

/// A ledger struct: its name is required, the rest is optional.
pub open spec fn ledger_config_spec(f: Seq<ConfigField>) -> Result<LedgerConfig, Seq<char>> {
    if text_entry(f, "name"@) is None {
        Err("`ledger.name` should be a string"@)
    } else if text_entry(f, "name"@) == Some(None::<String>) {
        Err("`ledger.name` is a required field"@)
    } else if text_entry(f, "profile"@) is None {
        Err("`ledger.profile` should be a string"@)
    } else if text_entry(f, "region"@) is None {
        Err("`ledger.region` should be a string"@)
    } else if text_entry(f, "qldb_session_endpoint"@) is None {
        Err("`ledger.qldb_session_endpoint` should be a string"@)
    } else {
        Ok(
            LedgerConfig {
                name: text_entry(f, "name"@)->0->0,
                profile: text_entry(f, "profile"@)->0,
                region: text_entry(f, "region"@)->0,
                qldb_session_endpoint: text_entry(f, "qldb_session_endpoint"@)->0,
            },
        )
    }
}

impl LedgerConfig {
    /// Reads the fields of a ledger struct.
    pub fn from_fields(f: &Vec<ConfigField>) -> (r: Result<LedgerConfig, ShellError>)
        ensures
            agrees(r, ledger_config_spec(f@)),
    {
        let name = match read_text(f, "name", "`ledger.name` should be a string")? {
            Some(name) => name,
            None => {
                return Err(usage_error("`ledger.name` is a required field"));
            },
        };
        let profile = read_text(f, "profile", "`ledger.profile` should be a string")?;
        let region = read_text(f, "region", "`ledger.region` should be a string")?;
        let qldb_session_endpoint = read_text(
            f,
            "qldb_session_endpoint",
            "`ledger.qldb_session_endpoint` should be a string",
        )?;
        Ok(LedgerConfig { name, profile, region, qldb_session_endpoint })
    }
}

/// Diagnostic settings.
#[derive(Debug, Clone)]
pub struct DebugConfig {
    /// Where the log is written.
    pub log: Option<String>,
}

pub open spec fn debug_config_spec(f: Seq<ConfigField>) -> Result<DebugConfig, Seq<char>> {
    match text_entry(f, "log"@) {
        None => Err("`debug.log` should be a string"@),
        Some(log) => Ok(DebugConfig { log }),
    }
}

impl DebugConfig {
    /// Reads the fields of the `debug` struct.
    pub fn from_fields(f: &Vec<ConfigField>) -> (r: Result<DebugConfig, ShellError>)
        ensures
            agrees(r, debug_config_spec(f@)),
    {
        let log = read_text(f, "log", "`debug.log` should be a string")?;
        Ok(DebugConfig { log })
    }
}

/// The whole configuration.
#[derive(Debug, Clone)]
pub struct ShellConfig {
    pub ui: UiConfig,
    pub debug: DebugConfig,
    pub default_ledger: Option<String>,
    pub ledgers: Option<Vec<LedgerConfig>>,
}

/// The configuration when no file gives one.
pub open spec fn is_default_config(c: ShellConfig) -> bool {
    &&& c.ui == (UiConfig {
        auto_commit: false,
        prompt: None,
        format: FormatMode::Ion,
        edit_mode: EditMode::Emacs,
        display_welcome: false,
        display_ctrl_signals: false,
        display_query_metrics: false,
        terminator_required: false,
    })
    &&& c.debug.log is None
    &&& c.default_ledger is None
    &&& c.ledgers is None
}

impl Default for ShellConfig {
    fn default() -> (r: ShellConfig)
        ensures
            is_default_config(r),
    {
        ShellConfig {
            ui: UiConfig::default(),
            debug: DebugConfig { log: None },
            default_ledger: None,
            ledgers: None,
        }
    }
}

/// The ledgers of the list from position `i` on: each must be a struct.
pub open spec fn ledgers_spec(items: Seq<ConfigValue>, i: int) -> Result<Seq<LedgerConfig>, Seq<char>>
    decreases items.len() - i,
{
    if i < 0 || i >= items.len() {
        Ok(Seq::empty())
    } else {
        match items[i] {
            ConfigValue::Struct(f) => match ledger_config_spec(f@) {
                Err(m) => Err(m),
                Ok(l) => match ledgers_spec(items, i + 1) {
                    Err(m) => Err(m),
                    Ok(rest) => Ok(seq![l] + rest),
                },
            },
            _ => Err("`ledgers` should be a list of structs"@),
        }
    }
}

/// The `ui` entry: must be a struct; defaults when missing.
pub open spec fn ui_entry(f: Seq<ConfigField>) -> Option<Result<UiConfig, Seq<char>>> {
    match lookup(f, "ui"@) {
        None => None,
        Some(ConfigValue::Struct(u)) => Some(ui_config_spec(u@)),
        Some(_) => Some(Err("`ui` should be a struct"@)),
    }
}

/// The `debug` entry: must be a struct; defaults when missing.
pub open spec fn debug_entry(f: Seq<ConfigField>) -> Option<Result<DebugConfig, Seq<char>>> {
    match lookup(f, "debug"@) {
        None => None,
        Some(ConfigValue::Struct(d)) => Some(debug_config_spec(d@)),
        Some(_) => Some(Err("`debug` should be a struct"@)),
    }
}

/// The `ledgers` entry: must be a list of ledger structs.
pub open spec fn ledgers_entry(f: Seq<ConfigField>) -> Option<Result<Seq<LedgerConfig>, Seq<char>>> {
    match lookup(f, "ledgers"@) {
        None => None,
        Some(ConfigValue::List(items)) => Some(ledgers_spec(items@, 0)),
        Some(_) => Some(Err("`ledgers` should be a list"@)),
    }
}

/// The first error of the top-level struct's entries, in the order `ui`,
/// `debug`, `default_ledger`, `ledgers`.
pub open spec fn config_error(f: Seq<ConfigField>) -> Option<Seq<char>> {
    match (ui_entry(f), debug_entry(f), text_entry(f, "default_ledger"@), ledgers_entry(f)) {
        (Some(Err(m)), _, _, _) => Some(m),
        (_, Some(Err(m)), _, _) => Some(m),
        (_, _, None, _) => Some("`default_ledger` should be a string"@),
        (_, _, _, Some(Err(m))) => Some(m),
        _ => None,
    }
}

/// Holds when `c` is the configuration that the top-level struct `f` gives,
/// all of whose entries are right.
pub open spec fn config_from(f: Seq<ConfigField>, c: ShellConfig) -> bool {
    &&& match ui_entry(f) {
        Some(Ok(ui)) => c.ui == ui,
        _ => c.ui == (UiConfig {
            auto_commit: false,
            prompt: None,
            format: FormatMode::Ion,
            edit_mode: EditMode::Emacs,
            display_welcome: false,
            display_ctrl_signals: false,
            display_query_metrics: false,
            terminator_required: false,
        }),
    }
    &&& match debug_entry(f) {
        Some(Ok(d)) => c.debug == d,
        _ => c.debug.log is None,
    }
    &&& c.default_ledger == text_entry(f, "default_ledger"@)->0
    &&& match ledgers_entry(f) {
        Some(Ok(ls)) => if ls.len() == 0 {
            c.ledgers is None
        } else {
            c.ledgers matches Some(v) && v@ == ls
        },
        _ => c.ledgers is None,
    }
}

fn ledgers_from(items: &Vec<ConfigValue>) -> (r: Result<Vec<LedgerConfig>, ShellError>)
    ensures
        match ledgers_spec(items@, 0) {
            Ok(ls) => r matches Ok(v) && v@ == ls,
            Err(m) => r matches Err(e) && e.is_usage(m),
        },
{
    let n = items.len();
    let mut out: Vec<LedgerConfig> = Vec::new();
    let mut i: usize = 0;
    while i < n
        invariant
            n == items@.len(),
            i <= n,
            match ledgers_spec(items@, 0) {
                Ok(ls) => ledgers_spec(items@, i as int) matches Ok(rest) && ls == out@ + rest,
                Err(m) => ledgers_spec(items@, i as int) == Err::<Seq<LedgerConfig>, Seq<char>>(m),
            },
        decreases n - i,
    {
        match &items[i] {
            ConfigValue::Struct(f) => {
                let ledger = LedgerConfig::from_fields(f)?;
                proof {
                    if let Ok(ls) = ledgers_spec(items@, 0) {
                        let rest = ledgers_spec(items@, i as int)->Ok_0;
                        let tail = ledgers_spec(items@, i + 1)->Ok_0;
                        assert(rest == seq![ledger] + tail);
                        assert(out@.push(ledger) + tail =~= out@ + rest);
                    }
                }
                out.push(ledger);
            },
            _ => {
                return Err(usage_error("`ledgers` should be a list of structs"));
            },
        }
        i = i + 1;
    }
    proof {
        if let Ok(ls) = ledgers_spec(items@, 0) {
            assert(out@ + Seq::<LedgerConfig>::empty() =~= out@);
        }
    }
    Ok(out)
}

impl ShellConfig {
    /// Reads the fields of the top-level struct of a configuration file.
    pub fn from_fields(f: &Vec<ConfigField>) -> (r: Result<ShellConfig, ShellError>)
        ensures
            match config_error(f@) {
                Some(m) => r matches Err(e) && e.is_usage(m),
                None => r matches Ok(c) && config_from(f@, c),
            },
    {
        let mut config = ShellConfig::default();
        match get(f, "ui") {
            None => {},
            Some(ConfigValue::Struct(u)) => {
                config.ui = UiConfig::from_fields(u)?;
            },
            Some(_) => {
                return Err(usage_error("`ui` should be a struct"));
            },
        }
        match get(f, "debug") {
            None => {},
            Some(ConfigValue::Struct(d)) => {
                config.debug = DebugConfig::from_fields(d)?;
            },
            Some(_) => {
                return Err(usage_error("`debug` should be a struct"));
            },
        }
        config.default_ledger = read_text(f, "default_ledger", "`default_ledger` should be a string")?;
        match get(f, "ledgers") {
            None => {},
            Some(ConfigValue::List(items)) => {
                let ledgers = ledgers_from(items)?;
                if ledgers.len() > 0 {
                    config.ledgers = Some(ledgers);
                }
            },
            Some(_) => {
                return Err(usage_error("`ledgers` should be a list"));
            },
        }
        Ok(config)
    }
}

/// The name of a value's type, as a message shows it.
pub open spec fn kind_name(v: ConfigValue) -> Seq<char> {
    match v {
        ConfigValue::Bool(_) => "Bool"@,
        ConfigValue::Text(_) => "String"@,
        ConfigValue::Struct(_) => "Struct"@,
        ConfigValue::List(_) => "List"@,
        ConfigValue::Other(name) => name@,
    }
}

pub open spec fn not_a_struct_message(v: ConfigValue) -> Seq<char> {
    "config should contain a single struct (found a "@ + kind_name(v) + ")"@
}

pub open spec fn multiple_message() -> Seq<char> {
    "config should contain a single struct (found multiple)"@
}

fn kind_name_of(v: &ConfigValue) -> (r: String)
    ensures
        r@ == kind_name(*v),
{
    match v {
        ConfigValue::Bool(_) => String::from_str("Bool"),
        ConfigValue::Text(_) => String::from_str("String"),
        ConfigValue::Struct(_) => String::from_str("Struct"),
        ConfigValue::List(_) => String::from_str("List"),
        ConfigValue::Other(name) => name.clone(),
    }
}

/// Holds when `r` is what reading the values of a configuration file gives:
/// none gives the defaults, and otherwise there must be exactly one, a
/// struct whose entries are right.
pub open spec fn values_give(values: Seq<ConfigValue>, r: Result<ShellConfig, ShellError>) -> bool {
    if values.len() == 0 {
        r matches Ok(c) && is_default_config(c)
    } else {
        match values[0] {
            ConfigValue::Struct(f) => match config_error(f@) {
                Some(m) => r matches Err(e) && e.is_usage(m),
                None => if values.len() > 1 {
                    r matches Err(e) && e.is_usage(multiple_message())
                } else {
                    r matches Ok(c) && config_from(f@, c)
                },
            },
            _ => r matches Err(e) && e.is_usage(not_a_struct_message(values[0])),
        }
    }
}

impl ShellConfig {
    /// Reads a configuration file's values: none gives the defaults, and
    /// otherwise there must be exactly one, a struct.
    pub fn from_values(values: &Vec<ConfigValue>) -> (r: Result<ShellConfig, ShellError>)
        ensures
            values_give(values@, r),
    {
        if values.len() == 0 {
            return Ok(ShellConfig::default());
        }
        let config = match &values[0] {
            ConfigValue::Struct(f) => ShellConfig::from_fields(f)?,
            other => {
                let message = String::from_str("config should contain a single struct (found a ")
                    .concat(kind_name_of(other).as_str()).concat(")");
                return Err(ShellError::UsageError { message });
            },
        };
        if values.len() > 1 {
            return Err(usage_error("config should contain a single struct (found multiple)"));
        }
        Ok(config)
    }

    /// The configuration to start with: the defaults when there is no
    /// configuration file, else what the file's values give.
    pub fn load_default(file: Option<&Vec<ConfigValue>>) -> (r: Result<ShellConfig, ShellError>)
        ensures
            file is None ==> (r matches Ok(c) && is_default_config(c)),
            file matches Some(values) ==> values_give(values@, r),
    {
        match file {
            None => Ok(ShellConfig::default()),
            Some(values) => ShellConfig::from_values(values),
        }
    }
}

} // verus!
