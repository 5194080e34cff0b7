//! The log filter that the verbosity flags ask for.

use vstd::prelude::*;

verus! {

/// The filter directive for the given flags.  `quiet` wins over the
/// verbosity; a debug build logs at debug level even without `-v`.
pub open spec fn filter_for(verbosity: u8, quiet: bool, debug_build: bool) -> Seq<char> {
    if quiet {
        "error"@
    } else if verbosity == 0 {
        if debug_build {
            "beads_rust=debug"@
        } else {
            "beads_rust=info"@
        }
    } else if verbosity == 1 {
        "beads_rust=debug"@
    } else if verbosity == 2 {
        "beads_rust=debug,rusqlite=debug"@
    } else {
        "beads_rust=trace"@
    }
}

/// The filter to use where the environment names none.
pub fn default_filter(verbosity: u8, quiet: bool, debug_build: bool) -> (r: String)
    ensures
        r@ == filter_for(verbosity, quiet, debug_build),
{
    if quiet {
        return "error".to_owned();
    }
    match verbosity {
        0 => {
            if debug_build {
                "beads_rust=debug".to_owned()
            } else {
                "beads_rust=info".to_owned()
            }
        },
        1 => "beads_rust=debug".to_owned(),
        2 => "beads_rust=debug,rusqlite=debug".to_owned(),
        _ => "beads_rust=trace".to_owned(),
    }
}

} // verus!
