//! The error taxonomy of a command call, its rendering, and the status code the
//! host receives.

use vstd::prelude::*;
use vstd::string::{StrSliceExecFns, StringExecFns};

use crate::command_line::{ArgError, ArgFault};

verus! {

/// The host's status code for success.
pub const S_OK: i32 = 0;

/// The host's generic failure code (0x80004005).
pub const E_FAIL: i32 = -2147467259;


/// Every way a command call can fail.
#[derive(Clone, Debug, PartialEq, Eq)]
pub enum CallError {
    /// The argument line leaves a quote open.
    Tokenize,
    /// The words of the argument line do not match the command's schema.
    Parse(ArgError),
    /// The client offers no control capability.
    Acquire,
    /// A call into the host failed with this native status code.
    HostOperation(i32),
    /// A rule of the command itself refused the call.
    Domain(String),
}

/// The mathematical counterpart of [`CallError`].
pub enum CallFault {
    Tokenize,
    Parse(ArgFault),
    Acquire,
    HostOperation(i32),
    Domain(Seq<char>),
}

impl View for CallError {
    type V = CallFault;

    open spec fn view(&self) -> CallFault {
        match self {
            CallError::Tokenize => CallFault::Tokenize,
            CallError::Parse(e) => CallFault::Parse(e@),
            CallError::Acquire => CallFault::Acquire,
            CallError::HostOperation(c) => CallFault::HostOperation(*c),
            CallError::Domain(m) => CallFault::Domain(m@),
        }
    }
}

/// The status code the host receives for the outcome of a call.
pub open spec fn status_spec(outcome: Result<(), CallFault>) -> i32 {
    match outcome {
        Ok(()) => S_OK,
        Err(CallFault::HostOperation(code)) => code,
        Err(_) => E_FAIL,
    }
}

/// Translates the outcome of a call into the host's status code: success, the
/// native code that a failed host operation carried, or the generic failure.
pub fn status_of(outcome: &Result<(), CallError>) -> (r: i32)
    ensures
        r == status_spec(match outcome {
            Ok(()) => Ok(()),
            Err(e) => Err(e@),
        }),
{
    match outcome {
        Ok(()) => S_OK,
        Err(CallError::HostOperation(code)) => *code,
        Err(_) => E_FAIL,
    }
}

/// Status translation is total: success gives the success code, a failed host
/// operation gives exactly the native code it carried, and every other failure
/// gives the generic failure code.
pub proof fn lemma_status_translation(f: CallFault)
    ensures
        status_spec(Ok(())) == S_OK,
        f matches CallFault::HostOperation(code) ==> status_spec(Err(f)) == code,
        !(f is HostOperation) ==> status_spec(Err(f)) == E_FAIL,
{
}

/// The usage line of the command.
pub open spec fn usage_text() -> Seq<char> {
    "Usage: bpproc <PROCESS>\n"@
}

/// The closing hint of a parse diagnostic.
pub open spec fn hint_text() -> Seq<char> {
    "\nFor more information, try '--help'.\n"@
}

/// The text shown for a parse failure: the violation, then the usage.
pub open spec fn arg_error_text(f: ArgFault) -> Seq<char> {
    match f {
        ArgFault::MissingProcess => "error: the following required arguments were not provided:\n  <PROCESS>\n\n"@
            + usage_text() + hint_text(),
        ArgFault::UnexpectedArgument(w) => "error: unexpected argument '"@ + w + "' found\n\n"@
            + usage_text() + hint_text(),
        ArgFault::HelpRequested => usage_text()
            + "\nArguments:\n  <PROCESS>  The process to find\n\nOptions:\n  -h, --help  Print help\n"@,
    }
}

/// The hexadecimal digit characters, by value.
pub open spec fn hex_digits() -> Seq<char> {
    "0123456789abcdef"@
}

/// The `i`-th nibble of `x`, counted from the most significant.
pub open spec fn nibble(x: u32, i: int) -> u32 {
    (x >> ((28 - 4 * i) as u32)) & 0xf
}

/// The eight hexadecimal digits of `x`, most significant first.
pub open spec fn hex_text(x: u32) -> Seq<char> {
    Seq::new(8, |i: int| hex_digits()[nibble(x, i) as int])
}

/// The rendered diagnostic of a failed call.
pub open spec fn error_text(f: CallFault) -> Seq<char> {
    match f {
        CallFault::Tokenize => "error: missing closing quote"@,
        CallFault::Parse(a) => arg_error_text(a),
        CallFault::Acquire => "error: the client offers no debug control interface"@,
        CallFault::HostOperation(code) => "error: host operation failed with status 0x"@ + hex_text(code as u32),
        CallFault::Domain(m) => "error: "@ + m,
    }
}

/// The eight hexadecimal digits of `x`.
pub fn hex_of(x: u32) -> (r: String)
    ensures
        r@ == hex_text(x),
{
    let digits = "0123456789abcdef";
    proof {
        reveal_strlit("0123456789abcdef");
    }
    assert(digits@.len() == 16);
    let mut r = String::new();
    let mut i: u32 = 0;
    while i < 8
        invariant
            i <= 8,
            digits@ == hex_digits(),
            digits@.len() == 16,
            digits.is_ascii(),
            r@ == hex_text(x).subrange(0, i as int),
        decreases 8 - i,
    {
        let shift: u32 = 28 - 4 * i;
        let n: u32 = (x >> shift) & 0xf;
        assert(n < 16) by (bit_vector)
            requires
                n == (x >> shift) & 0xf,
        ;
        assert(n == nibble(x, i as int));
        let d = digits.substring_ascii(n as usize, n as usize + 1);
        r.append(d);
        assert(r@ == hex_text(x).subrange(0, i + 1));
        i = i + 1;
    }
    r
}

impl ArgError {
    /// The diagnostic shown for this parse failure.
    pub fn render(&self) -> (r: String)
        ensures
            r@ == arg_error_text(self@),
    {
        let usage = "Usage: bpproc <PROCESS>\n";
        let hint = "\nFor more information, try '--help'.\n";
        match self {
            ArgError::MissingProcess => String::from_str(
                "error: the following required arguments were not provided:\n  <PROCESS>\n\n",
            ).concat(usage).concat(hint),
            ArgError::UnexpectedArgument(w) => String::from_str("error: unexpected argument '").concat(
                w.as_str(),
            ).concat("' found\n\n").concat(usage).concat(hint),
            ArgError::HelpRequested => String::from_str(usage).concat(
                "\nArguments:\n  <PROCESS>  The process to find\n\nOptions:\n  -h, --help  Print help\n",
            ),
        }
    }
}

impl CallError {
    /// The diagnostic shown for this failure, on the host console and in the
    /// local log alike.
    pub fn render(&self) -> (r: String)
        ensures
            r@ == error_text(self@),
    {
        match self {
            CallError::Tokenize => String::from_str("error: missing closing quote"),
            CallError::Parse(e) => e.render(),
            CallError::Acquire => String::from_str("error: the client offers no debug control interface"),
            CallError::HostOperation(code) => String::from_str(
                "error: host operation failed with status 0x",
            ).concat(hex_of(*code as u32).as_str()),
            CallError::Domain(m) => String::from_str("error: ").concat(m.as_str()),
        }
    }
}

} // verus!
