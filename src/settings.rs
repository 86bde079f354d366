//! Settings: where a value was set, the words that set them, and the
//! `name=value` form of a boolean setting.
use crate::error::{usage_error, ShellError};
use crate::modes::{AutoCommitMode, ExecuteStatementOpt, FormatMode};
use crate::text::{lower_of, lowercase, same_text};
use vstd::prelude::*;
use vstd::string::{StrSliceExecFns, StringExecFns};

verus! {

/// Who last set a value.
#[derive(Debug, Clone, Copy, PartialEq, Eq, Structural)]
pub enum Setter {
    Config,
    CommandLine,
    Environment,
}

/// A named value with the record of who set it last.
#[derive(Debug, Clone)]
pub struct Setting<T> {
    pub name: String,
    pub modified: bool,
    pub setter: Setter,
    pub value: T,
}

impl<T> Setting<T> {
    /// Sets the value, recording `setter`.
    pub fn apply_value(&mut self, other: T, setter: Setter)
        ensures
            final(self).name == old(self).name,
            final(self).modified,
            final(self).setter == setter,
            final(self).value == other,
    {
        self.modified = true;
        self.setter = setter;
        self.value = other;
    }

    /// Sets the value when one is given; leaves the setting as it is otherwise.
    pub fn apply_value_opt(&mut self, other: Option<T>, setter: Setter)
        ensures
            match other {
                Some(v) => final(self).name == old(self).name && final(self).modified
                    && final(self).setter == setter && final(self).value == v,
                None => *final(self) == *old(self),
            },
    {
        if let Some(value) = other {
            self.modified = true;
            self.setter = setter;
            self.value = value;
        }
    }
}

impl<T> Setting<Option<T>> {
    /// Replaces an optional value: a given value is set, and an absent one
    /// clears a value that was there. Clearing nothing changes nothing.
    pub fn apply_opt(&mut self, other: Option<T>, setter: Setter)
        ensures
            (old(self).value is None && other is None) ==> *final(self) == *old(self),
            !(old(self).value is None && other is None) ==> final(self).name == old(self).name
                && final(self).modified && final(self).setter == setter && final(self).value
                == other,
    {
        match (&self.value, &other) {
            (None, None) => {},
            _ => self.apply_value(other, setter),
        }
    }
}

/// A character that may stand in a setting's name.
pub open spec fn is_name_char(c: char) -> bool {
    ('a' <= c && c <= 'z') || ('A' <= c && c <= 'Z') || ('0' <= c && c <= '9') || c == '_' || c
        == '-'
}

/// The position of the first `=` at or after `i`, or the length of `s`.
pub open spec fn first_eq_from(s: Seq<char>, i: int) -> int
    decreases s.len() - i,
{
    if i >= s.len() {
        s.len() as int
    } else if s[i] == '=' {
        i
    } else {
        first_eq_from(s, i + 1)
    }
}

/// The name of `name=value`: what stands before the first `=`.
pub open spec fn assignment_name(s: Seq<char>) -> Seq<char> {
    s.subrange(0, first_eq_from(s, 0))
}

/// The value of `name=value`: what follows the first `=` (empty without one).
pub open spec fn assignment_value(s: Seq<char>) -> Seq<char> {
    if first_eq_from(s, 0) < s.len() {
        s.subrange(first_eq_from(s, 0) + 1, s.len() as int)
    } else {
        Seq::empty()
    }
}

pub open spec fn valid_name(n: Seq<char>) -> bool {
    n.len() > 0 && forall|i: int| 0 <= i < n.len() ==> is_name_char(#[trigger] n[i])
}

/// The words, in lowercase, that turn a boolean setting on or off. An empty
/// value turns it on.
pub open spec fn bool_word(l: Seq<char>) -> Option<bool> {
    if l == ""@ || l == "true"@ || l == "on"@ {
        Some(true)
    } else if l == "false"@ || l == "off"@ {
        Some(false)
    } else {
        None
    }
}

pub open spec fn bool_setting_message() -> Seq<char> {
    "expecting 'name=enabled', where enabled is one of: true, false, on or off"@
}

/// Reads a lowercase word of a boolean setting.
pub fn bool_from_lowercase(l: &str) -> (r: Option<bool>)
    ensures
        r == bool_word(l@),
{
    if same_text(l, "") || same_text(l, "true") || same_text(l, "on") {
        Some(true)
    } else if same_text(l, "false") || same_text(l, "off") {
        Some(false)
    } else {
        None
    }
}

fn first_eq(s: &str) -> (r: usize)
    ensures
        r == first_eq_from(s@, 0),
        r <= s@.len(),
{
    let n = s.unicode_len();
    let mut i: usize = 0;
    while i < n
        invariant
            n == s@.len(),
            i <= n,
            first_eq_from(s@, 0) == first_eq_from(s@, i as int),
        decreases n - i,
    {
        if s.get_char(i) == '=' {
            return i;
        }
        i = i + 1;
    }
    i
}

fn is_valid_name(n: &str) -> (r: bool)
    ensures
        r == valid_name(n@),
{
    let len = n.unicode_len();
    if len == 0 {
        return false;
    }
    let mut i: usize = 0;
    while i < len
        invariant
            len == n@.len(),
            i <= len,
            forall|j: int| 0 <= j < i ==> is_name_char(#[trigger] n@[j]),
        decreases len - i,
    {
        let c = n.get_char(i);
        if !(('a' <= c && c <= 'z') || ('A' <= c && c <= 'Z') || ('0' <= c && c <= '9') || c
            == '_' || c == '-') {
            return false;
        }
        i = i + 1;
    }
    true
}

/// The parser of `name=value` settings.
#[derive(Debug, Clone, Copy)]
pub struct SettingParser;

impl SettingParser {
    /// Parses a boolean setting written `name=value`, where the name is made
    /// of letters, digits, `_` and `-`, and the value (in any case) is one of
    /// `true`, `on`, `false`, `off`, or nothing.
    pub fn parse_bool(s: &str, setter: Setter) -> (r: Result<Setting<bool>, ShellError>)
        ensures
            match (valid_name(assignment_name(s@)), bool_word(lower_of(assignment_value(s@)))) {
                (true, Some(b)) => r matches Ok(setting) && setting.name@ == assignment_name(s@)
                    && setting.modified && setting.setter == setter && setting.value == b,
                _ => r matches Err(e) && e.is_usage(bool_setting_message()),
            },
    {
        let n = s.unicode_len();
        let eq = first_eq(s);
        let name = s.substring_char(0, eq);
        let value = if eq < n {
            s.substring_char(eq + 1, n)
        } else {
            s.substring_char(n, n)
        };
        assert(value@ == assignment_value(s@));
        let lower = lowercase(value);
        let parsed = bool_from_lowercase(lower.as_str());
        if !is_valid_name(name) {
            return Err(
                usage_error(
                    "expecting 'name=enabled', where enabled is one of: true, false, on or off",
                ),
            );
        }
        match parsed {
            Some(b) => Ok(Setting { name: String::from_str(name), modified: true, setter, value: b }),
            None => Err(
                usage_error(
                    "expecting 'name=enabled', where enabled is one of: true, false, on or off",
                ),
            ),
        }
    }
}

/// A boolean setting given on the command line.
#[derive(Debug, Clone)]
pub struct CommandLineSetting(pub Setting<bool>);

impl CommandLineSetting {
    /// Parses `name=value` as [`SettingParser::parse_bool`] does, recording
    /// the command line as the setter.
    pub fn from_str(s: &str) -> (r: Result<CommandLineSetting, ShellError>)
        ensures
            match (valid_name(assignment_name(s@)), bool_word(lower_of(assignment_value(s@)))) {
                (true, Some(b)) => r matches Ok(setting) && setting.0.name@ == assignment_name(s@)
                    && setting.0.modified && setting.0.setter == Setter::CommandLine
                    && setting.0.value == b,
                _ => r matches Err(e) && e.is_usage(bool_setting_message()),
            },
    {
        match SettingParser::parse_bool(s, Setter::CommandLine) {
            Ok(setting) => Ok(CommandLineSetting(setting)),
            Err(e) => Err(e),
        }
    }
}

/// The `ui` table of a TOML configuration.
#[derive(Debug, Clone)]
pub struct UiTomlTable {
    pub prompt: Option<String>,
}

/// A TOML configuration: every entry may be missing.
#[derive(Debug, Clone)]
pub struct Config {
    pub auto_commit: Option<bool>,
    pub ui: Option<UiTomlTable>,
}

impl Default for UiTomlTable {
    fn default() -> (r: UiTomlTable)
        ensures
            r.prompt is None,
    {
        UiTomlTable { prompt: None }
    }
}

impl Default for Config {
    fn default() -> (r: Config)
        ensures
            r.auto_commit is None,
            r.ui is None,
    {
        Config { auto_commit: None, ui: None }
    }
}

/// The options of the command line.
#[derive(Debug)]
pub struct Opt {
    pub region: Option<String>,
    pub ledger: String,
    pub qldb_session_endpoint: Option<String>,
    pub profile: Option<String>,
    pub verbose: bool,
    pub format: FormatMode,
    pub execute: Option<ExecuteStatementOpt>,
    /// Settings given as `name=value`.
    pub options: Option<Vec<CommandLineSetting>>,
    pub terminator_required: bool,
    pub auto_commit: AutoCommitMode,
    pub no_query_metrics: bool,
}

/// Every setting of a session, each with the record of who set it.
#[derive(Debug)]
pub struct Environment {
    pub auto_commit: Setting<bool>,
    pub format: Setting<FormatMode>,
    pub ledger: Setting<String>,
    pub prompt: Setting<String>,
    pub profile: Setting<Option<String>>,
    pub qldb_session_endpoint: Setting<Option<String>>,
    pub region: Setting<Option<String>>,
    pub show_query_metrics: Setting<bool>,
    pub terminator_required: Setting<bool>,
}

/// A setting as the environment first gives it: not modified, set by the
/// environment, with the given name.
pub open spec fn initial<T>(s: Setting<T>, name: Seq<char>) -> bool {
    s.name@ == name && !s.modified && s.setter == Setter::Environment
}

/// A setting that `setter` set to `value`, keeping the name of `before`.
pub open spec fn set_by<T>(s: Setting<T>, before: Setting<T>, setter: Setter, value: T) -> bool {
    s.name == before.name && s.modified && s.setter == setter && s.value == value
}

/// What `apply_opt` makes of a setting of an optional value.
pub open spec fn opt_applied<T>(s: Setting<Option<T>>, before: Setting<Option<T>>, setter: Setter, other: Option<T>) -> bool {
    if before.value is None && other is None {
        s == before
    } else {
        set_by(s, before, setter, other)
    }
}

/// The value of the last of the first `n` settings named `name`.
pub open spec fn last_named(opts: Seq<CommandLineSetting>, name: Seq<char>, n: int) -> Option<bool>
    decreases n,
{
    if n <= 0 {
        None
    } else if opts[n - 1].0.name@ == name {
        Some(opts[n - 1].0.value)
    } else {
        last_named(opts, name, n - 1)
    }
}

fn initial_setting<T>(name: &str, value: T) -> (r: Setting<T>)
    ensures
        initial(r, name@),
        r.value == value,
{
    Setting { name: String::from_str(name), modified: false, setter: Setter::Environment, value }
}

fn copy_opt(o: &Option<String>) -> (r: Option<String>)
    ensures
        r == *o,
{
    match o {
        Some(s) => Some(s.clone()),
        None => None,
    }
}

fn last_auto_commit(opts: &Vec<CommandLineSetting>) -> (r: Option<bool>)
    ensures
        r == last_named(opts@, "auto_commit"@, opts@.len() as int),
{
    let n = opts.len();
    let mut found: Option<bool> = None;
    let mut i: usize = 0;
    while i < n
        invariant
            n == opts@.len(),
            i <= n,
            found == last_named(opts@, "auto_commit"@, i as int),
        decreases n - i,
    {
        if same_text(opts[i].0.name.as_str(), "auto_commit") {
            found = Some(opts[i].0.value);
        }
        i = i + 1;
    }
    found
}

impl Environment {
    /// The settings before any configuration or option applies.
    pub fn new() -> (r: Environment)
        ensures
            initial(r.auto_commit, "auto_commit"@) && r.auto_commit.value,
            initial(r.format, "format"@) && r.format.value == FormatMode::Ion,
            initial(r.ledger, "ledger"@) && r.ledger.value@ == "!!unknown"@,
            initial(r.prompt, "prompt"@) && r.prompt.value@ == "qldb>"@,
            initial(r.profile, "profile"@) && r.profile.value is None,
            initial(r.qldb_session_endpoint, "qldb_session_endpoint"@)
                && r.qldb_session_endpoint.value is None,
            initial(r.region, "region"@) && r.region.value is None,
            initial(r.show_query_metrics, "show_query_metrics"@) && r.show_query_metrics.value,
            initial(r.terminator_required, "terminator_required"@) && !r.terminator_required.value,
    {
        Environment {
            auto_commit: initial_setting("auto_commit", true),
            format: initial_setting("format", FormatMode::Ion),
            ledger: initial_setting("ledger", String::from_str("!!unknown")),
            prompt: initial_setting("prompt", String::from_str("qldb>")),
            profile: initial_setting("profile", None),
            qldb_session_endpoint: initial_setting("qldb_session_endpoint", None),
            region: initial_setting("region", None),
            show_query_metrics: initial_setting("show_query_metrics", true),
            terminator_required: initial_setting("terminator_required", false),
        }
    }

    /// Applies a configuration file: what it gives is recorded as set by
    /// the configuration.
    pub fn apply_config(&mut self, config: &Config)
        ensures
            match config.auto_commit {
                Some(b) => set_by(final(self).auto_commit, old(self).auto_commit, Setter::Config, b),
                None => final(self).auto_commit == old(self).auto_commit,
            },
            match config.ui {
                Some(UiTomlTable { prompt: Some(p) }) => set_by(final(self).prompt, old(self).prompt, Setter::Config, p),
                _ => final(self).prompt == old(self).prompt,
            },
            final(self).format == old(self).format,
            final(self).ledger == old(self).ledger,
            final(self).profile == old(self).profile,
            final(self).qldb_session_endpoint == old(self).qldb_session_endpoint,
            final(self).region == old(self).region,
            final(self).show_query_metrics == old(self).show_query_metrics,
            final(self).terminator_required == old(self).terminator_required,
    {
        self.auto_commit.apply_value_opt(config.auto_commit, Setter::Config);
        if let Some(ui) = &config.ui {
            self.prompt.apply_value_opt(copy_opt(&ui.prompt), Setter::Config);
        }
    }

    /// Applies the command line: each option is recorded as set by it, and
    /// the last `auto_commit=...` setting, if any, decides auto-commit.
    pub fn apply_cli(&mut self, opt: &Opt)
        ensures
            match opt.options {
                Some(opts) if last_named(opts@, "auto_commit"@, opts@.len() as int) is Some =>
                    set_by(final(self).auto_commit, old(self).auto_commit, Setter::CommandLine,
                        last_named(opts@, "auto_commit"@, opts@.len() as int)->0),
                _ => set_by(final(self).auto_commit, old(self).auto_commit, Setter::CommandLine,
                    opt.auto_commit == AutoCommitMode::On),
            },
            set_by(final(self).format, old(self).format, Setter::CommandLine, opt.format),
            set_by(final(self).ledger, old(self).ledger, Setter::CommandLine, opt.ledger),
            set_by(final(self).show_query_metrics, old(self).show_query_metrics, Setter::CommandLine, !opt.no_query_metrics),
            opt_applied(final(self).profile, old(self).profile, Setter::CommandLine, opt.profile),
            opt_applied(final(self).qldb_session_endpoint, old(self).qldb_session_endpoint, Setter::CommandLine, opt.qldb_session_endpoint),
            opt_applied(final(self).region, old(self).region, Setter::CommandLine, opt.region),
            set_by(final(self).terminator_required, old(self).terminator_required, Setter::CommandLine, opt.terminator_required),
            final(self).prompt == old(self).prompt,
    {
        self.auto_commit.apply_value(opt.auto_commit.is_on(), Setter::CommandLine);
        self.format.apply_value(opt.format, Setter::CommandLine);
        self.ledger.apply_value(opt.ledger.clone(), Setter::CommandLine);
        self.show_query_metrics.apply_value(!opt.no_query_metrics, Setter::CommandLine);
        self.profile.apply_opt(copy_opt(&opt.profile), Setter::CommandLine);
        self.qldb_session_endpoint.apply_opt(copy_opt(&opt.qldb_session_endpoint), Setter::CommandLine);
        self.region.apply_opt(copy_opt(&opt.region), Setter::CommandLine);
        self.terminator_required.apply_value(opt.terminator_required, Setter::CommandLine);
        if let Some(options) = &opt.options {
            if let Some(value) = last_auto_commit(options) {
                self.auto_commit.apply_value_opt(Some(value), Setter::CommandLine);
            }
        }
    }
}

} // verus!
