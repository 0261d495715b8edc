//! The argument line of a command: shell-style splitting into words, then the
//! command's schema of one required positional value, the process to watch.

use vstd::prelude::*;
use vstd::string::StrSliceExecFns;

use crate::status::{CallError, CallFault};

verus! {

/// The words of a command line under POSIX shell quoting rules, or `None` where
/// a quote is left open.
pub uninterp spec fn shell_split(line: Seq<char>) -> Option<Seq<Seq<char>>>;

/// The views of a sequence of strings.
pub open spec fn texts(v: Seq<String>) -> Seq<Seq<char>> {
    v.map_values(|w: String| w@)
}

/// Relies on `shell_words::split`: the words of `line`, or its error on an
/// unmatched quote; a line without characters has no words.
#[verifier::external_body]
fn split_words(line: &str) -> (r: Option<Vec<String>>)
    ensures
        shell_split(line@) == match r {
            Some(v) => Some(texts(v@)),
            None => None,
        },
        line@.len() == 0 ==> r.is_some() && r.unwrap()@.len() == 0,
{
    shell_words::split(line).ok()
}

/// Why a word sequence does not match the schema.
#[derive(Clone, Debug, PartialEq, Eq)]
pub enum ArgError {
    /// No value was given for the process.
    MissingProcess,
    /// A word that the schema has no place for: an unknown option, or a second value.
    UnexpectedArgument(String),
    /// `-h` or `--help` asked for the usage text.
    HelpRequested,
}

/// The mathematical counterpart of [`ArgError`].
pub enum ArgFault {
    MissingProcess,
    UnexpectedArgument(Seq<char>),
    HelpRequested,
}

impl View for ArgError {
    type V = ArgFault;

    open spec fn view(&self) -> ArgFault {
        match self {
            ArgError::MissingProcess => ArgFault::MissingProcess,
            ArgError::UnexpectedArgument(w) => ArgFault::UnexpectedArgument(w@),
            ArgError::HelpRequested => ArgFault::HelpRequested,
        }
    }
}

/// The parsed arguments of the command: the process to watch.
#[derive(Clone, Debug, PartialEq, Eq)]
pub struct ProcessArgs {
    pub process: String,
}

/// The word that ends option processing: every later word is a value.
pub open spec fn is_separator(w: Seq<char>) -> bool {
    w == "--"@
}

/// A word that names an option: a dash followed by at least one character.
pub open spec fn is_option(w: Seq<char>) -> bool {
    w.len() > 1 && w[0] == '-'
}

/// An option that asks for the usage text.
pub open spec fn is_help(w: Seq<char>) -> bool {
    w == "-h"@ || w == "--help"@
}

/// The schema read over `words[i..]`, left to right, where `raw` says that the
/// separator has been seen and `value` holds the value taken so far. The first
/// offending word decides the error.
pub open spec fn scan_args(words: Seq<Seq<char>>, i: int, raw: bool, value: Option<Seq<char>>) -> Result<Seq<char>, ArgFault>
    decreases words.len() - i,
{
    if i < 0 || i >= words.len() {
        match value {
            Some(v) => Ok(v),
            None => Err(ArgFault::MissingProcess),
        }
    } else {
        let w = words[i];
        if !raw && is_separator(w) {
            scan_args(words, i + 1, true, value)
        } else if !raw && is_option(w) {
            if is_help(w) {
                Err(ArgFault::HelpRequested)
            } else {
                Err(ArgFault::UnexpectedArgument(w))
            }
        } else if value is Some {
            Err(ArgFault::UnexpectedArgument(w))
        } else {
            scan_args(words, i + 1, raw, Some(w))
        }
    }
}

/// The process named by a word sequence, or why the sequence does not match.
pub open spec fn parse_args_spec(words: Seq<Seq<char>>) -> Result<Seq<char>, ArgFault> {
    scan_args(words, 0, false, None)
}

/// Whether two strings hold the same characters.
fn same_text(a: &str, b: &str) -> (r: bool)
    ensures
        r == (a@ == b@),
{
    let n = a.unicode_len();
    if n != b.unicode_len() {
        return false;
    }
    let mut i: usize = 0;
    while i < n
        invariant
            n == a@.len(),
            n == b@.len(),
            i <= n,
            a@.subrange(0, i as int) == b@.subrange(0, i as int),
        decreases n - i,
    {
        if a.get_char(i) != b.get_char(i) {
            assert(a@[i as int] != b@[i as int]);
            return false;
        }
        assert(a@.subrange(0, i + 1) == a@.subrange(0, i as int).push(a@[i as int]));
        assert(b@.subrange(0, i + 1) == b@.subrange(0, i as int).push(b@[i as int]));
        i = i + 1;
    }
    assert(a@ == a@.subrange(0, n as int));
    assert(b@ == b@.subrange(0, n as int));
    true
}

/// Reads the schema over the words: exactly one value, the process, with an
/// optional `--` before which no word may be an option.
pub fn parse_process_args(words: &Vec<String>) -> (r: Result<ProcessArgs, ArgError>)
    ensures
        match (r, parse_args_spec(texts(words@))) {
            (Ok(a), Ok(p)) => a.process@ == p,
            (Err(e), Err(f)) => e@ == f,
            _ => false,
        },
{
    let ghost ws = texts(words@);
    let mut raw = false;
    let mut value: Option<String> = None;
    let mut i: usize = 0;
    while i < words.len()
        invariant
            ws == texts(words@),
            ws.len() == words@.len(),
            i <= words@.len(),
            parse_args_spec(ws) == scan_args(ws, i as int, raw, match value {
                Some(v) => Some(v@),
                None => None,
            }),
        decreases words.len() - i,
    {
        let w = &words[i];
        assert(ws[i as int] == w@);
        let n = w.unicode_len();
        if !raw && same_text(w.as_str(), "--") {
            raw = true;
        } else if !raw && n > 1 && w.get_char(0) == '-' {
            if same_text(w.as_str(), "-h") || same_text(w.as_str(), "--help") {
                return Err(ArgError::HelpRequested);
            }
            return Err(ArgError::UnexpectedArgument(w.clone()));
        } else if value.is_some() {
            return Err(ArgError::UnexpectedArgument(w.clone()));
        } else {
            value = Some(w.clone());
        }
        i = i + 1;
    }
    match value {
        Some(v) => Ok(ProcessArgs { process: v }),
        None => Err(ArgError::MissingProcess),
    }
}

/// The process named by an argument line, or why the call fails before its body runs.
pub open spec fn parse_line_spec(line: Seq<char>) -> Result<Seq<char>, CallFault> {
    match shell_split(line) {
        None => Err(CallFault::Tokenize),
        Some(words) => match parse_args_spec(words) {
            Ok(p) => Ok(p),
            Err(f) => Err(CallFault::Parse(f)),
        },
    }
}

/// Splits an argument line into words; an open quote fails the call.
pub fn tokenize(line: &str) -> (r: Result<Vec<String>, CallError>)
    ensures
        match r {
            Ok(v) => shell_split(line@) == Some(texts(v@)),
            Err(e) => shell_split(line@) is None && e@ == CallFault::Tokenize,
        },
{
    match split_words(line) {
        Some(v) => Ok(v),
        None => Err(CallError::Tokenize),
    }
}

/// Splits an argument line and reads the command's schema over its words.
pub fn parse_call(line: &str) -> (r: Result<ProcessArgs, CallError>)
    ensures
        match (r, parse_line_spec(line@)) {
            (Ok(a), Ok(p)) => a.process@ == p,
            (Err(e), Err(f)) => e@ == f,
            _ => false,
        },
{
    let words = tokenize(line)?;
    match parse_process_args(&words) {
        Ok(a) => Ok(a),
        Err(e) => Err(CallError::Parse(e)),
    }
}

/// A single word that is neither an option nor the separator is read as the
/// process exactly as it stands.
pub proof fn lemma_single_value_round_trips(p: Seq<char>)
    requires
        !is_option(p),
        !is_separator(p),
    ensures
        parse_args_spec(seq![p]) == Ok::<Seq<char>, ArgFault>(p),
{
    reveal_with_fuel(scan_args, 3);
}

/// After the separator, any single word is read as the process exactly as it
/// stands, a leading dash included.
pub proof fn lemma_value_after_separator_round_trips(p: Seq<char>)
    ensures
        parse_args_spec(seq!["--"@, p]) == Ok::<Seq<char>, ArgFault>(p),
{
    reveal_with_fuel(scan_args, 4);
}

/// An argument line that splits into one plain word names that word as the
/// process, with nothing trimmed or changed.
pub proof fn lemma_line_round_trips(line: Seq<char>, p: Seq<char>)
    requires
        shell_split(line) == Some(seq![p]),
        !is_option(p),
        !is_separator(p),
    ensures
        parse_line_spec(line) == Ok::<Seq<char>, CallFault>(p),
{
    lemma_single_value_round_trips(p);
}

} // verus!
