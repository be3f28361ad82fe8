//! When the automatic update check runs after the application starts.
use vstd::prelude::*;

verus! {

/// Seconds between application start and the automatic update check.
pub const STARTUP_CHECK_DELAY_SECS: u64 = 5;

/// The delay after which the host runs the automatic update check, or `None`
/// when no automatic check is made. Release builds check once, after
/// `STARTUP_CHECK_DELAY_SECS`; development builds never check on their own.
pub fn startup_check_delay(release_build: bool) -> (r: Option<u64>)
    ensures
        release_build ==> r == Some(STARTUP_CHECK_DELAY_SECS),
        !release_build ==> r is None,
{
    if release_build {
        Some(STARTUP_CHECK_DELAY_SECS)
    } else {
        None
    }
}

} // verus!
