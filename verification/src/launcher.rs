//! Locating and launching the installed application.
//!
//! Once the driver signals completion the orchestrator attempts to launch
//! the freshly installed executable, retrying a bounded number of times
//! while the file system catches up.  Only this failure is surfaced to the
//! user.  The path is built from the user-local application data directory
//! handed in by the caller.

use vstd::prelude::*;
use vstd::string::StringExecFns;

verus! {

/// How many times the launcher checks for the installed executable.
pub const LAUNCH_ATTEMPTS: u32 = 5;

/// What one launch attempt does.
#[derive(Clone, Copy, PartialEq, Eq, Structural, Debug)]
pub enum LaunchStep {
    /// The executable exists: run it and stop retrying.
    Run,
    /// Not there yet and attempts remain: wait and look again.
    Retry,
    /// Not there on the last attempt: show the user-visible error.
    ReportError,
}

/// The expected path of the installed executable: under the user-local
/// application data directory if one is known, else under the built-up
/// profile path for the given user name (or the default name).
pub open spec fn install_path_chars(
    data_local_dir: Option<Seq<char>>,
    username: Option<Seq<char>>,
) -> Seq<char> {
    match data_local_dir {
        Some(d) => d + "\\Zayit\\Zayit.exe"@,
        None => "C:\\Users\\"@ + (match username {
            Some(u) => u,
            None => "User"@,
        }) + "\\AppData\\Local\\Zayit\\Zayit.exe"@,
    }
}

/// The view of an optional string.
pub open spec fn opt_string_view(s: Option<String>) -> Option<Seq<char>> {
    match s {
        Some(v) => Some(v@),
        None => None,
    }
}

/// Build the expected path of the installed executable.
pub fn install_exe_path(data_local_dir: Option<String>, username: Option<String>) -> (p: String)
    ensures
        p@ == install_path_chars(opt_string_view(data_local_dir), opt_string_view(username)),
{
    match data_local_dir {
        Some(d) => d.concat("\\Zayit\\Zayit.exe"),
        None => {
            let mut s = String::from_str("C:\\Users\\");
            match username {
                Some(u) => s.append(u.as_str()),
                None => s.append("User"),
            }
            s.append("\\AppData\\Local\\Zayit\\Zayit.exe");
            s
        },
    }
}

/// Decide one launch attempt: run as soon as the executable exists, retry
/// while attempts remain, and report the error - the only error surfaced
/// to the user - when the last attempt still finds nothing.
pub fn launch_decision(attempt: u32, exe_exists: bool) -> (s: LaunchStep)
    requires
        attempt < LAUNCH_ATTEMPTS,
    ensures
        (s is Run) == exe_exists,
        (s is Retry) == (!exe_exists && attempt + 1 < LAUNCH_ATTEMPTS),
        (s is ReportError) == (!exe_exists && attempt + 1 == LAUNCH_ATTEMPTS),
{
    if exe_exists {
        LaunchStep::Run
    } else if attempt + 1 < LAUNCH_ATTEMPTS {
        LaunchStep::Retry
    } else {
        LaunchStep::ReportError
    }
}

} // verus!
