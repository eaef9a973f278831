//! Policy constants of the readiness protocol and the fixed names it uses.
//!
//! The wait windows, the retry ceiling and the backoff base are configuration:
//! any values preserve the protocol's shape (one unconditional wait, one
//! longer wait, a bounded number of connection attempts with strictly
//! increasing delays).

use vstd::prelude::*;

verus! {

/// Duration of the first, unconditional wait window, in milliseconds.
pub const FIRST_WAIT_MS: u64 = 1000;

/// Duration of the second, longer wait window, in milliseconds.
pub const SECOND_WAIT_MS: u64 = 2000;

/// Maximum number of connection attempts before the protocol gives up.
pub const MAX_ATTEMPTS: u32 = 3;

/// Base of the backoff delay: attempt `n` is followed by a delay of
/// `RETRY_BASE_MS * n` milliseconds when a retry remains.
pub const RETRY_BASE_MS: u64 = 100;

/// The second wait window is strictly longer than the first: the two
/// windows escalate.
pub proof fn lemma_wait_windows_escalate()
    ensures
        FIRST_WAIT_MS < SECOND_WAIT_MS,
{
}

/// Name of the database file inside the storage directory.
pub open spec fn db_filename_spec() -> Seq<char> {
    "alduin.db"@
}

/// Name of the database file inside the storage directory.
pub fn db_filename() -> (r: &'static str)
    ensures
        r@ == db_filename_spec(),
{
    "alduin.db"
}

/// Directory appended to the home directory when the platform offers no
/// native configuration directory.
pub open spec fn home_config_suffix_spec() -> Seq<char> {
    "/.config/io.stouder.alduin"@
}

/// Directory appended to the home directory when the platform offers no
/// native configuration directory.
pub fn home_config_suffix() -> (r: &'static str)
    ensures
        r@ == home_config_suffix_spec(),
{
    "/.config/io.stouder.alduin"
}

/// Relative directory used as the last-resort storage location.
pub open spec fn emergency_dir_spec() -> Seq<char> {
    "./data"@
}

/// Relative directory used as the last-resort storage location.
pub fn emergency_dir() -> (r: &'static str)
    ensures
        r@ == emergency_dir_spec(),
{
    "./data"
}

} // verus!
