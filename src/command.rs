//! What a line of input asks for: a statement, a database command, or a
//! meta command written after a backslash.
use crate::error::{usage_error, ShellError};
use crate::modes::{EditMode, SetCommand, TrueFalse};
use crate::text::{lower_of, lowercase, same_text};
use vstd::prelude::*;
use vstd::string::{StrSliceExecFns, StringExecFns};

verus! {

/// The commands of the shell itself.
#[derive(Debug, Clone, Copy, PartialEq, Eq, Structural)]
pub enum ShellCommand {
    Help,
    Quit,
    StartTransaction,
    Abort,
    Commit,
    Env,
    ShowTables,
    Status,
    /// Not a word of its own: parsed as a meta command.
    Other,
}

/// The command named by a lowercase line.
pub open spec fn command_word(l: Seq<char>) -> ShellCommand {
    if l == "help"@ || l == "?"@ {
        ShellCommand::Help
    } else if l == "quit"@ || l == "exit"@ {
        ShellCommand::Quit
    } else if l == "start transaction"@ || l == "begin"@ {
        ShellCommand::StartTransaction
    } else if l == "abort"@ {
        ShellCommand::Abort
    } else if l == "commit"@ {
        ShellCommand::Commit
    } else if l == "env"@ {
        ShellCommand::Env
    } else if l == "show tables"@ {
        ShellCommand::ShowTables
    } else if l == "status"@ {
        ShellCommand::Status
    } else {
        ShellCommand::Other
    }
}

/// The lowercase lines that are commands even without a backslash.
pub open spec fn special_word(l: Seq<char>) -> bool {
    l == "help"@ || l == "quit"@ || l == "exit"@ || l == "start transaction"@ || l == "begin"@
        || l == "abort"@ || l == "commit"@
}

/// Reads a lowercase command word.
pub fn command_from_lowercase(l: &str) -> (r: ShellCommand)
    ensures
        r == command_word(l@),
{
    if same_text(l, "help") || same_text(l, "?") {
        ShellCommand::Help
    } else if same_text(l, "quit") || same_text(l, "exit") {
        ShellCommand::Quit
    } else if same_text(l, "start transaction") || same_text(l, "begin") {
        ShellCommand::StartTransaction
    } else if same_text(l, "abort") {
        ShellCommand::Abort
    } else if same_text(l, "commit") {
        ShellCommand::Commit
    } else if same_text(l, "env") {
        ShellCommand::Env
    } else if same_text(l, "show tables") {
        ShellCommand::ShowTables
    } else if same_text(l, "status") {
        ShellCommand::Status
    } else {
        ShellCommand::Other
    }
}

/// The command that a line names, in any case.
pub fn parse_command(line: &str) -> (r: ShellCommand)
    ensures
        r == command_word(lower_of(line@)),
{
    let lower = lowercase(line);
    command_from_lowercase(lower.as_str())
}

/// Whether a lowercase line is a command that needs no backslash.
pub fn is_special_lowercase(l: &str) -> (r: bool)
    ensures
        r == special_word(l@),
{
    same_text(l, "help") || same_text(l, "quit") || same_text(l, "exit") || same_text(
        l,
        "start transaction",
    ) || same_text(l, "begin") || same_text(l, "abort") || same_text(l, "commit")
}

/// Whether a line, in any case, is a command that needs no backslash.
pub fn is_special_command(line: &str) -> (r: bool)
    ensures
        r == special_word(lower_of(line@)),
{
    let lower = lowercase(line);
    is_special_lowercase(lower.as_str())
}

/// What a line of input is.
#[derive(Debug, Clone)]
pub enum Input {
    /// Nothing was entered.
    Empty,
    /// A command; the text is the line without its leading backslash.
    Command(String),
    /// A statement for the database.
    Statement(String),
}

/// Sorts a line of input: a backslash starts a meta command, a special word
/// is a command, and anything else is a statement.
pub fn classify_input(line: &str) -> (r: Input)
    ensures
        line@.len() == 0 ==> r matches Input::Empty,
        line@.len() > 0 && line@[0] == '\\' ==> (r matches Input::Command(c) && c@ == line@.drop_first()),
        line@.len() > 0 && line@[0] != '\\' && special_word(lower_of(line@)) ==> (r matches Input::Command(c) && c@ == line@),
        line@.len() > 0 && line@[0] != '\\' && !special_word(lower_of(line@)) ==> (r matches Input::Statement(s) && s@ == line@),
{
    let n = line.unicode_len();
    if n == 0 {
        Input::Empty
    } else if line.get_char(0) == '\\' {
        let rest = line.substring_char(1, n);
        assert(rest@ =~= line@.drop_first());
        Input::Command(String::from_str(rest))
    } else if is_special_command(line) {
        Input::Command(String::from_str(line))
    } else {
        Input::Statement(String::from_str(line))
    }
}

/// The words of a text, split at ASCII whitespace.
pub uninterp spec fn ascii_words(s: Seq<char>) -> Seq<Seq<char>>;

pub open spec fn texts_of(v: Seq<String>) -> Seq<Seq<char>> {
    v.map_values(|w: String| w@)
}

/// Relies on `str::split_ascii_whitespace`: the words depend on the
/// characters alone.
#[verifier::external_body]
fn split_words(s: &str) -> (r: Vec<String>)
    ensures
        texts_of(r@) == ascii_words(s@),
{
    s.split_ascii_whitespace().map(|w| w.to_string()).collect()
}

/// The serialization of the absolute URL that a text spells, or `None` when
/// it spells none.
pub uninterp spec fn url_serialization(s: Seq<char>) -> Option<Seq<char>>;

/// Relies on `url::Url::parse`: whether a text is an absolute URL, and the
/// URL's serialization, depend on the text alone.
#[verifier::external_body]
fn parse_url(s: &str) -> (r: Option<String>)
    ensures
        match url_serialization(s@) {
            Some(t) => r matches Some(u) && u@ == t,
            None => r is None,
        },
{
    url::Url::parse(s).ok().map(|u| u.to_string())
}

/// A meta command, written after a backslash.
#[derive(Debug, Clone)]
pub enum Backslash {
    SetValue(SetCommand),
    Use(UseCommand),
}

/// `\use`: switch to another ledger, region, endpoint or profile. The
/// endpoint is held as the serialization of its URL.
#[derive(Debug, Clone)]
pub struct UseCommand {
    pub ledger: Option<String>,
    pub region: Option<String>,
    pub qldb_session_endpoint: Option<String>,
    pub profile: Option<String>,
}

/// The mathematical form of a [`UseCommand`].
pub struct UseView {
    pub ledger: Option<Seq<char>>,
    pub region: Option<Seq<char>>,
    pub qldb_session_endpoint: Option<Seq<char>>,
    pub profile: Option<Seq<char>>,
}

pub open spec fn opt_text(o: Option<String>) -> Option<Seq<char>> {
    match o {
        Some(s) => Some(s@),
        None => None,
    }
}

impl View for UseCommand {
    type V = UseView;

    open spec fn view(&self) -> UseView {
        UseView {
            ledger: opt_text(self.ledger),
            region: opt_text(self.region),
            qldb_session_endpoint: opt_text(self.qldb_session_endpoint),
            profile: opt_text(self.profile),
        }
    }
}

/// The options of `\use`.
#[derive(Debug, Clone, Copy, PartialEq, Eq, Structural)]
pub enum UseFlag {
    Ledger,
    Region,
    Endpoint,
    Profile,
}

pub open spec fn use_flag_word(w: Seq<char>) -> Option<UseFlag> {
    if w == "-l"@ || w == "--ledger"@ {
        Some(UseFlag::Ledger)
    } else if w == "-r"@ || w == "--region"@ {
        Some(UseFlag::Region)
    } else if w == "-s"@ || w == "--qldb-session-endpoint"@ {
        Some(UseFlag::Endpoint)
    } else if w == "-p"@ || w == "--profile"@ {
        Some(UseFlag::Profile)
    } else {
        None
    }
}

pub open spec fn use_has(u: UseView, f: UseFlag) -> bool {
    match f {
        UseFlag::Ledger => u.ledger is Some,
        UseFlag::Region => u.region is Some,
        UseFlag::Endpoint => u.qldb_session_endpoint is Some,
        UseFlag::Profile => u.profile is Some,
    }
}

pub open spec fn use_with(u: UseView, f: UseFlag, v: Seq<char>) -> UseView {
    match f {
        UseFlag::Ledger => UseView { ledger: Some(v), ..u },
        UseFlag::Region => UseView { region: Some(v), ..u },
        UseFlag::Endpoint => UseView { qldb_session_endpoint: Some(v), ..u },
        UseFlag::Profile => UseView { profile: Some(v), ..u },
    }
}

/// Reads the options of `\use` from word `i` on: each option is followed by
/// its value, and none may be given twice. The endpoint must be an absolute
/// URL, and is kept in its serialized form.
pub open spec fn use_scan(ws: Seq<Seq<char>>, i: int, acc: UseView) -> Option<UseView>
    decreases ws.len() - i,
{
    if i >= ws.len() {
        Some(acc)
    } else if i + 1 >= ws.len() {
        None
    } else {
        match use_flag_word(ws[i]) {
            None => None,
            Some(f) => if use_has(acc, f) {
                None
            } else if f == UseFlag::Endpoint {
                match url_serialization(ws[i + 1]) {
                    Some(url) => use_scan(ws, i + 2, use_with(acc, f, url)),
                    None => None,
                }
            } else {
                use_scan(ws, i + 2, use_with(acc, f, ws[i + 1]))
            },
        }
    }
}

pub open spec fn no_use_options() -> UseView {
    UseView { ledger: None, region: None, qldb_session_endpoint: None, profile: None }
}

/// What `\set` sets, from its two words.
pub open spec fn set_words(what: Seq<char>, value: Seq<char>) -> Option<SetCommand> {
    if what == "edit-mode"@ && value == "emacs"@ {
        Some(SetCommand::EditMode(EditMode::Emacs))
    } else if what == "edit-mode"@ && value == "vi"@ {
        Some(SetCommand::EditMode(EditMode::Vi))
    } else if what == "terminator-required"@ && value == "true"@ {
        Some(SetCommand::TerminatorRequired(TrueFalse::True))
    } else if what == "terminator-required"@ && value == "false"@ {
        Some(SetCommand::TerminatorRequired(TrueFalse::False))
    } else {
        None
    }
}

pub open spec fn unknown_command_message() -> Seq<char> {
    "Unknown command, enter 'help' for a list of commands."@
}

fn use_flag(w: &str) -> (r: Option<UseFlag>)
    ensures
        r == use_flag_word(w@),
{
    if same_text(w, "-l") || same_text(w, "--ledger") {
        Some(UseFlag::Ledger)
    } else if same_text(w, "-r") || same_text(w, "--region") {
        Some(UseFlag::Region)
    } else if same_text(w, "-s") || same_text(w, "--qldb-session-endpoint") {
        Some(UseFlag::Endpoint)
    } else if same_text(w, "-p") || same_text(w, "--profile") {
        Some(UseFlag::Profile)
    } else {
        None
    }
}

fn set_command(what: &str, value: &str) -> (r: Option<SetCommand>)
    ensures
        r == set_words(what@, value@),
{
    if same_text(what, "edit-mode") && same_text(value, "emacs") {
        Some(SetCommand::EditMode(EditMode::Emacs))
    } else if same_text(what, "edit-mode") && same_text(value, "vi") {
        Some(SetCommand::EditMode(EditMode::Vi))
    } else if same_text(what, "terminator-required") && same_text(value, "true") {
        Some(SetCommand::TerminatorRequired(TrueFalse::True))
    } else if same_text(what, "terminator-required") && same_text(value, "false") {
        Some(SetCommand::TerminatorRequired(TrueFalse::False))
    } else {
        None
    }
}

fn parse_use(words: &Vec<String>) -> (r: Option<UseCommand>)
    requires
        words@.len() >= 1,
    ensures
        match use_scan(texts_of(words@), 1, no_use_options()) {
            Some(u) => r matches Some(c) && c@ == u,
            None => r is None,
        },
{
    let ghost ws = texts_of(words@);
    let mut u = UseCommand { ledger: None, region: None, qldb_session_endpoint: None, profile: None };
    let n = words.len();
    let mut i: usize = 1;
    while i < n
        invariant
            n == words@.len(),
            ws == texts_of(words@),
            1 <= i,
            use_scan(ws, 1, no_use_options()) == use_scan(ws, i as int, u@),
        decreases n - i,
    {
        if i + 1 >= n {
            return None;
        }
        let value = words[i + 1].clone();
        assert(value@ == ws[i + 1]);
        match use_flag(words[i].as_str()) {
            None => {
                return None;
            },
            Some(UseFlag::Ledger) => {
                if u.ledger.is_some() {
                    return None;
                }
                u.ledger = Some(value);
            },
            Some(UseFlag::Region) => {
                if u.region.is_some() {
                    return None;
                }
                u.region = Some(value);
            },
            Some(UseFlag::Endpoint) => {
                if u.qldb_session_endpoint.is_some() {
                    return None;
                }
                match parse_url(value.as_str()) {
                    Some(url) => {
                        u.qldb_session_endpoint = Some(url);
                    },
                    None => {
                        return None;
                    },
                }
            },
            Some(UseFlag::Profile) => {
                if u.profile.is_some() {
                    return None;
                }
                u.profile = Some(value);
            },
        }
        i = i + 2;
    }
    Some(u)
}

/// The meta command that `words` spell, or `None`.
pub open spec fn backslash_spec(ws: Seq<Seq<char>>) -> Option<BackslashView> {
    if ws.len() == 3 && ws[0] == "set"@ {
        match set_words(ws[1], ws[2]) {
            Some(c) => Some(BackslashView::SetValue(c)),
            None => None,
        }
    } else if ws.len() >= 1 && ws[0] == "use"@ {
        match use_scan(ws, 1, no_use_options()) {
            Some(u) => Some(BackslashView::Use(u)),
            None => None,
        }
    } else {
        None
    }
}

/// The mathematical form of a [`Backslash`].
pub enum BackslashView {
    SetValue(SetCommand),
    Use(UseView),
}

impl View for Backslash {
    type V = BackslashView;

    open spec fn view(&self) -> BackslashView {
        match self {
            Backslash::SetValue(c) => BackslashView::SetValue(*c),
            Backslash::Use(u) => BackslashView::Use(u@),
        }
    }
}

/// Parses the words of a meta command: `set edit-mode emacs|vi`,
/// `set terminator-required true|false`, or `use` with the options
/// `-l`/`--ledger`, `-r`/`--region`, `-s`/`--qldb-session-endpoint` and
/// `-p`/`--profile`, each followed by its value.
pub fn backslash(words: &Vec<String>) -> (r: Result<Backslash, ShellError>)
    ensures
        match backslash_spec(texts_of(words@)) {
            Some(b) => r matches Ok(c) && c@ == b,
            None => r matches Err(e) && e.is_usage(unknown_command_message()),
        },
{
    let ghost ws = texts_of(words@);
    let n = words.len();
    if n == 3 && same_text(words[0].as_str(), "set") {
        assert(words[0]@ == ws[0] && words[1]@ == ws[1] && words[2]@ == ws[2]);
        if let Some(c) = set_command(words[1].as_str(), words[2].as_str()) {
            return Ok(Backslash::SetValue(c));
        }
    } else if n >= 1 && same_text(words[0].as_str(), "use") {
        if let Some(u) = parse_use(words) {
            return Ok(Backslash::Use(u));
        }
    }
    Err(usage_error("Unknown command, enter 'help' for a list of commands."))
}

/// Parses a meta command line, as [`backslash`] does with its words.
pub fn parse_meta_command(line: &str) -> (r: Result<Backslash, ShellError>)
    ensures
        match backslash_spec(ascii_words(line@)) {
            Some(b) => r matches Ok(c) && c@ == b,
            None => r matches Err(e) && e.is_usage(unknown_command_message()),
        },
{
    let words = split_words(line);
    backslash(&words)
}

/// What end of input (Ctrl-D) does.
#[derive(Debug, Clone, Copy, PartialEq, Eq, Structural)]
pub enum BreakAction {
    /// Abort the open transaction and go on.
    AbortTransaction,
    /// Leave the shell.
    Exit,
}

/// End of input aborts an open transaction, and leaves the shell otherwise.
pub fn break_action(transaction_open: bool) -> (r: BreakAction)
    ensures
        r == if transaction_open {
            BreakAction::AbortTransaction
        } else {
            BreakAction::Exit
        },
{
    if transaction_open {
        BreakAction::AbortTransaction
    } else {
        BreakAction::Exit
    }
}

/// The noun for a count of documents.
pub fn document_noun(count: usize) -> (r: &'static str)
    ensures
        r@ == if count == 1 {
            "document"@
        } else {
            "documents"@
        },
{
    if count == 1 {
        "document"
    } else {
        "documents"
    }
}

} // verus!
