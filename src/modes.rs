//! The words that choose a mode: auto-commit, output format, key bindings,
//! and what `--execute` runs.
use crate::error::ShellError;
use crate::text::{lower_of, lowercase, same_text};
use vstd::prelude::*;
use vstd::string::StringExecFns;

verus! {

/// Whether a statement outside a transaction runs in one of its own.
#[derive(Debug, Clone, Copy, PartialEq, Eq, Structural)]
pub enum AutoCommitMode {
    On,
    Off,
}

/// A word that names no auto-commit mode.
#[derive(Debug, Clone)]
pub enum ParseAutoCommitModeErr {
    InvalidAutoCommitMode(String),
}

pub open spec fn auto_commit_word(l: Seq<char>) -> Option<AutoCommitMode> {
    if l == "on"@ || l == "true"@ || l == "yes"@ {
        Some(AutoCommitMode::On)
    } else if l == "off"@ || l == "false"@ || l == "no"@ {
        Some(AutoCommitMode::Off)
    } else {
        None
    }
}

impl AutoCommitMode {
    /// Reads a lowercase word.
    pub fn from_lowercase(l: &str) -> (r: Option<AutoCommitMode>)
        ensures
            r == auto_commit_word(l@),
    {
        if same_text(l, "on") || same_text(l, "true") || same_text(l, "yes") {
            Some(AutoCommitMode::On)
        } else if same_text(l, "off") || same_text(l, "false") || same_text(l, "no") {
            Some(AutoCommitMode::Off)
        } else {
            None
        }
    }

    /// Reads a word in any case; an unknown word is returned in the error.
    pub fn from_str(s: &str) -> (r: Result<AutoCommitMode, ParseAutoCommitModeErr>)
        ensures
            match auto_commit_word(lower_of(s@)) {
                Some(m) => r == Ok::<AutoCommitMode, ParseAutoCommitModeErr>(m),
                None => r matches Err(ParseAutoCommitModeErr::InvalidAutoCommitMode(w)) && w@
                    == s@,
            },
    {
        let lower = lowercase(s);
        match AutoCommitMode::from_lowercase(lower.as_str()) {
            Some(m) => Ok(m),
            None => Err(ParseAutoCommitModeErr::InvalidAutoCommitMode(String::from_str(s))),
        }
    }

    /// Whether statements are committed on their own.
    pub fn is_on(&self) -> (r: bool)
        ensures
            r == (*self == AutoCommitMode::On),
    {
        match self {
            AutoCommitMode::On => true,
            AutoCommitMode::Off => false,
        }
    }
}

impl Default for AutoCommitMode {
    fn default() -> (r: AutoCommitMode)
        ensures
            r == AutoCommitMode::On,
    {
        AutoCommitMode::On
    }
}

/// How query results are printed.
#[derive(Debug, Clone, Copy, PartialEq, Eq, Structural)]
pub enum FormatMode {
    Ion,
    Table,
}

/// A word that names no output format.
#[derive(Debug, Clone)]
pub enum ParseFormatModeErr {
    InvalidFormatMode(String),
}

pub open spec fn format_word(l: Seq<char>) -> Option<FormatMode> {
    if l == "ion"@ || l == "ion-text"@ {
        Some(FormatMode::Ion)
    } else if l == "table"@ {
        Some(FormatMode::Table)
    } else {
        None
    }
}

impl FormatMode {
    /// Reads a lowercase word.
    pub fn from_lowercase(l: &str) -> (r: Option<FormatMode>)
        ensures
            r == format_word(l@),
    {
        if same_text(l, "ion") || same_text(l, "ion-text") {
            Some(FormatMode::Ion)
        } else if same_text(l, "table") {
            Some(FormatMode::Table)
        } else {
            None
        }
    }

    /// Reads a word in any case; an unknown word is returned in the error.
    pub fn from_str(s: &str) -> (r: Result<FormatMode, ParseFormatModeErr>)
        ensures
            match format_word(lower_of(s@)) {
                Some(m) => r == Ok::<FormatMode, ParseFormatModeErr>(m),
                None => r matches Err(ParseFormatModeErr::InvalidFormatMode(w)) && w@ == s@,
            },
    {
        let lower = lowercase(s);
        match FormatMode::from_lowercase(lower.as_str()) {
            Some(m) => Ok(m),
            None => Err(ParseFormatModeErr::InvalidFormatMode(String::from_str(s))),
        }
    }
}

impl Default for FormatMode {
    fn default() -> (r: FormatMode)
        ensures
            r == FormatMode::Ion,
    {
        FormatMode::Ion
    }
}

/// The key bindings of the line editor.
#[derive(Debug, Clone, Copy, PartialEq, Eq, Structural)]
pub enum EditMode {
    Emacs,
    Vi,
}

pub open spec fn edit_mode_word(l: Seq<char>) -> Option<EditMode> {
    if l == "emacs"@ {
        Some(EditMode::Emacs)
    } else if l == "vi"@ {
        Some(EditMode::Vi)
    } else {
        None
    }
}

pub open spec fn invalid_edit_mode_message(s: Seq<char>) -> Seq<char> {
    s + " is not a valid edit mode"@
}

impl EditMode {
    /// Reads a lowercase word.
    pub fn from_lowercase(l: &str) -> (r: Option<EditMode>)
        ensures
            r == edit_mode_word(l@),
    {
        if same_text(l, "emacs") {
            Some(EditMode::Emacs)
        } else if same_text(l, "vi") {
            Some(EditMode::Vi)
        } else {
            None
        }
    }

    /// Reads a word in any case; an unknown word is a usage error.
    pub fn from_str(s: &str) -> (r: Result<EditMode, ShellError>)
        ensures
            match edit_mode_word(lower_of(s@)) {
                Some(m) => r == Ok::<EditMode, ShellError>(m),
                None => r matches Err(e) && e.is_usage(invalid_edit_mode_message(s@)),
            },
    {
        let lower = lowercase(s);
        match EditMode::from_lowercase(lower.as_str()) {
            Some(m) => Ok(m),
            None => {
                let message = String::from_str(s).concat(" is not a valid edit mode");
                Err(ShellError::UsageError { message })
            },
        }
    }
}

impl Default for EditMode {
    fn default() -> (r: EditMode)
        ensures
            r == EditMode::Emacs,
    {
        EditMode::Emacs
    }
}

/// What `--execute` runs: one statement, or what is read from standard input.
#[derive(Debug, Clone)]
pub enum ExecuteStatementOpt {
    SingleStatement(String),
    Stdin,
}

impl ExecuteStatementOpt {
    /// `-` stands for standard input; any other text is the statement.
    pub fn from_str(s: &str) -> (r: Result<ExecuteStatementOpt, String>)
        ensures
            s@ == "-"@ ==> r matches Ok(ExecuteStatementOpt::Stdin),
            s@ != "-"@ ==> (r matches Ok(ExecuteStatementOpt::SingleStatement(t)) && t@ == s@),
    {
        if same_text(s, "-") {
            Ok(ExecuteStatementOpt::Stdin)
        } else {
            Ok(ExecuteStatementOpt::SingleStatement(String::from_str(s)))
        }
    }
}

/// A boolean written as a word.
#[derive(Debug, Clone, Copy, PartialEq, Eq, Structural)]
pub enum TrueFalse {
    True,
    False,
}

impl TrueFalse {
    /// The boolean that the word stands for.
    pub fn to_bool(&self) -> (r: bool)
        ensures
            r == (*self == TrueFalse::True),
    {
        match self {
            TrueFalse::True => true,
            TrueFalse::False => false,
        }
    }
}

/// The `\set` meta command.
#[derive(Debug, Clone, Copy, PartialEq, Eq, Structural)]
pub enum SetCommand {
    EditMode(EditMode),
    TerminatorRequired(TrueFalse),
}

} // verus!
