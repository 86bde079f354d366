//! The session's environment: which ledger is current, how its settings are
//! completed from the configuration, and the prompt that shows them.
use crate::command::UseCommand;
use crate::config::{LedgerConfig, UiConfig};
use crate::modes::{SetCommand, TrueFalse};
use crate::error::{usage_error, ShellError};
use crate::text::same_text;
use vstd::prelude::*;
use vstd::string::StringExecFns;

verus! {

pub open spec fn no_ledger_message() -> Seq<char> {
    "`--ledger` was not specified and there is no `default_ledger` in your config"@
}

/// The ledger to connect to: the one named on the command line, else the
/// configuration's default one.
pub fn resolve_ledger_name(cli: Option<String>, default_ledger: &Option<String>) -> (r: Result<
    String,
    ShellError,
>)
    ensures
        cli matches Some(name) ==> r == Ok::<String, ShellError>(name),
        cli is None ==> match default_ledger {
            Some(name) => r == Ok::<String, ShellError>(*name),
            None => r matches Err(e) && e.is_usage(no_ledger_message()),
        },
{
    match cli {
        Some(name) => Ok(name),
        None => match default_ledger {
            Some(name) => Ok(name.clone()),
            None => Err(
                usage_error(
                    "`--ledger` was not specified and there is no `default_ledger` in your config",
                ),
            ),
        },
    }
}

/// The position of the first ledger at or after `i` named `name`.
pub open spec fn find_ledger_from(ls: Seq<LedgerConfig>, name: Seq<char>, i: int) -> Option<int>
    decreases ls.len() - i,
{
    if i < 0 || i >= ls.len() {
        None
    } else if ls[i].name@ == name {
        Some(i)
    } else {
        find_ledger_from(ls, name, i + 1)
    }
}

pub open spec fn or_else<T>(a: Option<T>, b: Option<T>) -> Option<T> {
    if a is Some {
        a
    } else {
        b
    }
}

/// The current ledger's settings completed from a configured ledger: what
/// is already set stays, and what is missing is taken from `pre`.
pub open spec fn completed(cur: LedgerConfig, pre: LedgerConfig) -> LedgerConfig {
    LedgerConfig {
        name: cur.name,
        profile: or_else(cur.profile, pre.profile),
        region: or_else(cur.region, pre.region),
        qldb_session_endpoint: or_else(cur.qldb_session_endpoint, pre.qldb_session_endpoint),
    }
}

proof fn lemma_found_ledger(ls: Seq<LedgerConfig>, name: Seq<char>, i: int)
    ensures
        find_ledger_from(ls, name, i) matches Some(j) ==> i <= j < ls.len() && ls[j].name@ == name,
    decreases ls.len() - i,
{
    if 0 <= i < ls.len() && ls[i].name@ != name {
        lemma_found_ledger(ls, name, i + 1);
    }
}

fn find_ledger(ledgers: &Vec<LedgerConfig>, name: &str) -> (r: Option<usize>)
    ensures
        r matches Some(i) ==> i < ledgers@.len(),
        match find_ledger_from(ledgers@, name@, 0) {
            Some(i) => r matches Some(j) && j as int == i,
            None => r is None,
        },
{
    proof {
        lemma_found_ledger(ledgers@, name@, 0);
    }
    let n = ledgers.len();
    let mut i: usize = 0;
    while i < n
        invariant
            n == ledgers@.len(),
            i <= n,
            find_ledger_from(ledgers@, name@, 0) == find_ledger_from(ledgers@, name@, i as int),
        decreases n - i,
    {
        if same_text(ledgers[i].name.as_str(), name) {
            return Some(i);
        }
        i = i + 1;
    }
    None
}

fn copy_text(o: &Option<String>) -> (r: Option<String>)
    ensures
        r == *o,
{
    match o {
        Some(s) => Some(s.clone()),
        None => None,
    }
}

/// Completes the current ledger's settings from the first configured ledger
/// of the same name. Returns whether there was one; without one nothing
/// changes. The caller determines the region again when there was.
pub fn reload_current_ledger_config(
    current: &mut LedgerConfig,
    ledgers: &Option<Vec<LedgerConfig>>,
) -> (r: bool)
    ensures
        match ledgers {
            Some(ls) => match find_ledger_from(ls@, old(current).name@, 0) {
                Some(i) => r && *final(current) == completed(*old(current), ls@[i]),
                None => !r && *final(current) == *old(current),
            },
            None => !r && *final(current) == *old(current),
        },
{
    match ledgers {
        None => false,
        Some(all) => match find_ledger(all, current.name.as_str()) {
            None => false,
            Some(i) => {
                let pre = &all[i];
                if current.profile.is_none() {
                    current.profile = copy_text(&pre.profile);
                }
                if current.region.is_none() {
                    current.region = copy_text(&pre.region);
                }
                if current.qldb_session_endpoint.is_none() {
                    current.qldb_session_endpoint = copy_text(&pre.qldb_session_endpoint);
                }
                true
            },
        },
    }
}

/// When input does not come from a terminal, the welcome message and the
/// echo of control keys are left out.
pub fn apply_noninteractive_defaults(ui: &mut UiConfig)
    ensures
        *final(ui) == (UiConfig {
            display_welcome: false,
            display_ctrl_signals: false,
            ..*old(ui)
        }),
{
    ui.display_welcome = false;
    ui.display_ctrl_signals = false;
}

/// `s` with every occurrence of `from` (not empty), left to right and not
/// overlapping, replaced by `to`.
pub open spec fn replace_spec(s: Seq<char>, from: Seq<char>, to: Seq<char>) -> Seq<char>
    decreases s.len(),
{
    if from.len() == 0 || s.len() < from.len() {
        s
    } else if s.subrange(0, from.len() as int) == from {
        to + replace_spec(s.subrange(from.len() as int, s.len() as int), from, to)
    } else {
        seq![s[0]] + replace_spec(s.drop_first(), from, to)
    }
}

/// Relies on `str::replace`: each non-overlapping occurrence of a non-empty
/// pattern, found from left to right, is replaced.
#[verifier::external_body]
fn replace_text(s: &str, from: &str, to: &str) -> (r: String)
    requires
        from@.len() > 0,
    ensures
        r@ == replace_spec(s@, from@, to@),
{
    s.replace(from, to)
}

pub open spec fn prompt_spec(
    template: Seq<char>,
    region: Seq<char>,
    ledger: Seq<char>,
    transaction_active: bool,
) -> Seq<char> {
    replace_spec(
        replace_spec(replace_spec(template, "$REGION"@, region), "$LEDGER"@, ledger),
        "$ACTIVE_TRANSACTION"@,
        if transaction_active {
            " *"@
        } else {
            ""@
        },
    )
}

pub open spec fn default_prompt() -> Seq<char> {
    "qldb$ACTIVE_TRANSACTION> "@
}

/// The prompt: the configured one, or the default, with `$REGION`,
/// `$LEDGER` and `$ACTIVE_TRANSACTION` filled in; an open transaction shows
/// as ` *`.
pub fn build_prompt(prompt: &Option<String>, region: &str, ledger: &str, transaction_active: bool) -> (r:
    String)
    ensures
        r@ == prompt_spec(
            match prompt {
                Some(p) => p@,
                None => default_prompt(),
            },
            region@,
            ledger@,
            transaction_active,
        ),
{
    let template = match prompt {
        Some(p) => p.clone(),
        None => String::from_str("qldb$ACTIVE_TRANSACTION> "),
    };
    proof {
        reveal_strlit("$REGION");
        reveal_strlit("$LEDGER");
        reveal_strlit("$ACTIVE_TRANSACTION");
    }
    let with_region = replace_text(template.as_str(), "$REGION", region);
    let with_ledger = replace_text(with_region.as_str(), "$LEDGER", ledger);
    let marker = if transaction_active {
        " *"
    } else {
        ""
    };
    replace_text(with_ledger.as_str(), "$ACTIVE_TRANSACTION", marker)
}

/// Applies `\\set` to the interface settings.
pub fn apply_set_command(ui: &mut UiConfig, set: SetCommand)
    ensures
        match set {
            SetCommand::EditMode(m) => *final(ui) == (UiConfig { edit_mode: m, ..*old(ui) }),
            SetCommand::TerminatorRequired(tf) => *final(ui) == (UiConfig {
                terminator_required: tf == TrueFalse::True,
                ..*old(ui)
            }),
        },
{
    match set {
        SetCommand::EditMode(m) => {
            ui.edit_mode = m;
        },
        SetCommand::TerminatorRequired(tf) => {
            ui.terminator_required = tf.to_bool();
        },
    }
}

pub open spec fn or_given(given: Option<String>, old: Option<String>) -> Option<String> {
    if given is Some {
        given
    } else {
        old
    }
}

/// Applies `\\use` to the current ledger: each given option replaces the
/// setting, and the rest stay. The caller then reloads the ledger's
/// configuration and restarts the session.
pub fn apply_use_command(current: &mut LedgerConfig, u: UseCommand)
    ensures
        final(current).name == match u.ledger {
            Some(l) => l,
            None => old(current).name,
        },
        final(current).region == or_given(u.region, old(current).region),
        final(current).profile == or_given(u.profile, old(current).profile),
        final(current).qldb_session_endpoint == or_given(
            u.qldb_session_endpoint,
            old(current).qldb_session_endpoint,
        ),
{
    if let Some(ledger) = u.ledger {
        current.name = ledger;
    }
    if let Some(region) = u.region {
        current.region = Some(region);
    }
    if let Some(profile) = u.profile {
        current.profile = Some(profile);
    }
    if let Some(endpoint) = u.qldb_session_endpoint {
        current.qldb_session_endpoint = Some(endpoint);
    }
}

} // verus!
