//! Core engine of a command-line client for a hosted task-management
//! service: selector resolution, deterministic task ordering, the
//! per-task interactive workflow, and the resumable task pointer.
use vstd::prelude::*;
use vstd::string::StringExecFns;

pub mod commands;
pub mod config;
pub mod debug;
mod errors;
pub mod lists;
pub mod projects;
pub mod regexes;
pub mod sorting;
pub mod strings;
pub mod tasks;

pub use errors::Error;
pub use errors::ErrorKind;

verus! {

/// The long version banner: the program name, then the version and
/// the build details in parentheses.
pub fn long_version(
    name: &str,
    version: &str,
    build_profile: &str,
    build_target: &str,
    build_timestamp: &str,
) -> (r: String)
    ensures
        r@ == name@ + " ("@ + version@ + ", "@ + build_profile@ + ", "@ + build_target@ + ", "@
            + build_timestamp@ + ")"@,
{
    let mut s = name.to_owned();
    s.append(" (");
    s.append(version);
    s.append(", ");
    s.append(build_profile);
    s.append(", ");
    s.append(build_target);
    s.append(", ");
    s.append(build_timestamp);
    s.append(")");
    s
}

} // verus!
