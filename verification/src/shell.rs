//! The two commands of the application shell that are not about papers.

use vstd::prelude::*;
use crate::text::{concat3, str_eq};

verus! {

/// The greeting for `name`.
pub fn greet(name: &str) -> (r: String)
    ensures
        r@ == "Hello, "@ + name@ + "! You've been greeted from Rust!"@,
{
    concat3("Hello, ", name, "! You've been greeted from Rust!")
}

/// Whether the developer tools may be opened: only in a debug build, and
/// there only when the environment is named `dev`.
pub open spec fn devtools_allowed(debug_build: bool, environment: Option<Seq<char>>) -> bool {
    debug_build && environment == Some("dev"@)
}

/// Why the developer tools may not be opened.
pub open spec fn devtools_refusal(debug_build: bool) -> Seq<char> {
    if debug_build {
        "DevTools functionality is not yet fully implemented"@
    } else {
        "DevTools access is disabled in production builds for security reasons"@
    }
}

/// Decides a request for the developer tools, given whether this is a debug
/// build and what the environment is named, if it is named at all.
pub fn toggle_devtools(debug_build: bool, environment: Option<&str>) -> (r: Result<(), String>)
    ensures
        match r {
            Ok(()) => devtools_allowed(
                debug_build,
                match environment {
                    Some(name) => Some(name@),
                    None => None,
                },
            ),
            Err(message) => !devtools_allowed(
                debug_build,
                match environment {
                    Some(name) => Some(name@),
                    None => None,
                },
            ) && message@ == devtools_refusal(debug_build),
        },
{
    if !debug_build {
        return Err(
            String::from_str(
                "DevTools access is disabled in production builds for security reasons",
            ),
        );
    }
    match environment {
        Some(name) => {
            if str_eq(name, "dev") {
                Ok(())
            } else {
                Err(String::from_str("DevTools functionality is not yet fully implemented"))
            }
        },
        None => Err(String::from_str("DevTools functionality is not yet fully implemented")),
    }
}

} // verus!
