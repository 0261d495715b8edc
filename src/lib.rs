//! Command dispatch for a debugger extension: splitting and parsing a command's
//! argument line, the per-call pipeline that drives the host, and the translation
//! of every outcome into the host's numeric status code.

use vstd::prelude::*;

pub mod command_line;
pub mod session;
pub mod status;

verus! {

/// Version reported to the host at load time: 1.0, major in the high half.
pub const EXTENSION_VERSION: u32 = 0x0001_0000;

/// Flags reported to the host at load time; the host requires zero.
pub const EXTENSION_FLAGS: u32 = 0;

/// The values the extension reports when the host loads it: `(version, flags)`.
pub fn init() -> (r: (u32, u32))
    ensures
        r == (EXTENSION_VERSION, EXTENSION_FLAGS),
        r.1 == 0,
{
    (EXTENSION_VERSION, EXTENSION_FLAGS)
}

} // verus!
