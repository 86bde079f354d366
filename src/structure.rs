//! Checks that the brackets of an input are balanced, so that the line
//! editor can tell a finished statement from one that goes on over more
//! lines. `(`, `[` and `{` pair with `)`, `]` and `}`; a bag opens with `<<`
//! and closes with `>>`.
use vstd::prelude::*;
use vstd::string::StrSliceExecFns;

verus! {

/// A closing mark that the input owes or gives: one character, or the
/// character twice.
#[derive(Debug, Clone, Copy, PartialEq, Eq, Structural)]
pub enum StructureCheck {
    Single(char),
    Repeat(char),
}

/// The closing mark that an opening character asks for, given the character
/// after it.
pub open spec fn starts_spec(c: char, next: Option<char>) -> Option<StructureCheck> {
    if c == '(' {
        Some(StructureCheck::Single(')'))
    } else if c == '[' {
        Some(StructureCheck::Single(']'))
    } else if c == '{' {
        Some(StructureCheck::Single('}'))
    } else if c == '<' && next == Some('<') {
        Some(StructureCheck::Repeat('>'))
    } else {
        None
    }
}

/// The closing mark that a character gives, given the character after it.
pub open spec fn completes_spec(c: char, next: Option<char>) -> Option<StructureCheck> {
    if c == ')' || c == ']' || c == '}' {
        Some(StructureCheck::Single(c))
    } else if c == '>' && next == Some('>') {
        Some(StructureCheck::Repeat('>'))
    } else {
        None
    }
}

impl StructureCheck {
    /// The closing mark that `c` opens, if any.
    pub fn starts(c: char, next: Option<char>) -> (r: Option<StructureCheck>)
        ensures
            r == starts_spec(c, next),
    {
        match c {
            '(' => Some(StructureCheck::Single(')')),
            '[' => Some(StructureCheck::Single(']')),
            '{' => Some(StructureCheck::Single('}')),
            '<' => match next {
                Some('<') => Some(StructureCheck::Repeat('>')),
                _ => None,
            },
            _ => None,
        }
    }

    /// The closing mark that `c` gives, if any.
    pub fn completes(c: char, next: Option<char>) -> (r: Option<StructureCheck>)
        ensures
            r == completes_spec(c, next),
    {
        match c {
            ')' | ']' | '}' => Some(StructureCheck::Single(c)),
            '>' => match next {
                Some('>') => Some(StructureCheck::Repeat('>')),
                _ => None,
            },
            _ => None,
        }
    }
}

/// The verdict on an input.
#[derive(Debug, Clone, Copy, PartialEq, Eq, Structural)]
pub enum StructureVerdict {
    /// Every opened structure is closed.
    Valid,
    /// Some structure is still open: the input goes on.
    Incomplete,
    /// A closing mark came while the innermost open structure wanted this one.
    Expecting(StructureCheck),
    /// This closing mark came with no structure open.
    Unpaired(StructureCheck),
}

pub open spec fn next_char(s: Seq<char>, i: int) -> Option<char> {
    if i + 1 < s.len() {
        Some(s[i + 1])
    } else {
        None
    }
}

/// The verdict on `s` from position `i`, with `open` the closing marks owed
/// so far, innermost last.
pub open spec fn scan(s: Seq<char>, i: int, open: Seq<StructureCheck>) -> StructureVerdict
    decreases s.len() - i,
{
    if i >= s.len() || i < 0 {
        if open.len() == 0 {
            StructureVerdict::Valid
        } else {
            StructureVerdict::Incomplete
        }
    } else {
        let pushed = match starts_spec(s[i], next_char(s, i)) {
            Some(owed) => open.push(owed),
            None => open,
        };
        match completes_spec(s[i], next_char(s, i)) {
            Some(given) => if pushed.len() == 0 {
                StructureVerdict::Unpaired(given)
            } else if pushed.last() != given {
                StructureVerdict::Expecting(pushed.last())
            } else {
                scan(s, i + 1, pushed.drop_last())
            },
            None => scan(s, i + 1, pushed),
        }
    }
}

/// Judges whether the structures of `input` are balanced.
pub fn validate_structure(input: &str) -> (r: StructureVerdict)
    ensures
        r == scan(input@, 0, Seq::empty()),
{
    let n = input.unicode_len();
    let mut stack: Vec<StructureCheck> = Vec::new();
    let mut i: usize = 0;
    while i < n
        invariant
            n == input@.len(),
            i <= n,
            scan(input@, 0, Seq::empty()) == scan(input@, i as int, stack@),
        decreases n - i,
    {
        let c = input.get_char(i);
        let next = if i + 1 < n {
            Some(input.get_char(i + 1))
        } else {
            None
        };
        assert(next == next_char(input@, i as int));
        if let Some(owed) = StructureCheck::starts(c, next) {
            stack.push(owed);
        }
        if let Some(given) = StructureCheck::completes(c, next) {
            match stack.pop() {
                Some(top) => {
                    if top != given {
                        return StructureVerdict::Expecting(top);
                    }
                },
                None => {
                    return StructureVerdict::Unpaired(given);
                },
            }
        }
        i = i + 1;
    }
    if stack.len() == 0 {
        StructureVerdict::Valid
    } else {
        StructureVerdict::Incomplete
    }
}

/// Judges a whole input as the line editor sees it: when a terminator is
/// required, input that does not end with `;` goes on.
pub fn validate_input(input: &str, terminator_required: bool) -> (r: StructureVerdict)
    ensures
        terminator_required && !(input@.len() > 0 && input@.last() == ';') ==> r
            == StructureVerdict::Incomplete,
        !(terminator_required && !(input@.len() > 0 && input@.last() == ';')) ==> r == scan(
            input@,
            0,
            Seq::empty(),
        ),
{
    if terminator_required {
        let n = input.unicode_len();
        if n == 0 || input.get_char(n - 1) != ';' {
            return StructureVerdict::Incomplete;
        }
    }
    validate_structure(input)
}

} // verus!
