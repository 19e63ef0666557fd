//! Resolves the target directory and names the error kinds a run can end in.

use vstd::prelude::*;

verus! {

/// The closed set of failures: the directory was configured nowhere, the
/// directory could not be listed, or one file could not be removed.
#[derive(Debug, PartialEq, Eq, Structural)]
pub enum CleanError {
    ConfigMissing,
    ListFailed,
    DeleteFailed,
}

impl CleanError {
    /// A printable description of the error kind.
    pub fn message(&self) -> (r: String)
        ensures
            r@ == (match *self {
                CleanError::ConfigMissing => "Environment variable Downloads not found"@,
                CleanError::ListFailed => "Directory listing failed"@,
                CleanError::DeleteFailed => "Error deleting file"@,
            }),
    {
        match self {
            CleanError::ConfigMissing => String::from_str("Environment variable Downloads not found"),
            CleanError::ListFailed => String::from_str("Directory listing failed"),
            CleanError::DeleteFailed => String::from_str("Error deleting file"),
        }
    }
}

/// The environment variable consulted when no directory flag is given.
pub fn env_variable_name() -> (r: &'static str)
    ensures
        r@ == "Downloads"@,
{
    "Downloads"
}

/// Picks the target directory: an explicit directory argument always wins;
/// otherwise the environment variable's value is taken; with neither, the
/// run fails before any directory is touched.
pub fn resolve_directory(dir: Option<String>, env_val: Option<String>) -> (r: Result<
    String,
    CleanError,
>)
    ensures
        r == (match dir {
            Option::Some(d) => Result::<String, CleanError>::Ok(d),
            Option::None => (match env_val {
                Option::Some(v) => Result::<String, CleanError>::Ok(v),
                Option::None => Result::<String, CleanError>::Err(CleanError::ConfigMissing),
            }),
        }),
{
    match dir {
        Option::Some(d) => Result::Ok(d),
        Option::None => match env_val {
            Option::Some(v) => Result::Ok(v),
            Option::None => Result::Err(CleanError::ConfigMissing),
        },
    }
}

} // verus!
