//! The operator's request, as plain data. Argument parsing lives outside
//! the library and hands one of these in.

use vstd::prelude::*;

verus! {

/// One invocation of the package manager.
pub struct Cli {
    pub command: Command,
}

/// What the operator asked for.
pub enum Command {
    Install {
        repo: String,
        local: bool,
        gitlab: bool,
        codeberg: bool,
        branch: Option<String>,
        patches: Option<String>,
        flags: Vec<String>,
        yes: bool,
    },
    Search {
        query: String,
    },
    Remove {
        name: String,
    },
}

} // verus!
