//! Command-line arguments as plain values.
//!
//! The binary reads the process arguments; this module only decides
//! what they mean, which here is the configuration path and its
//! default.

use vstd::prelude::*;

verus! {

/// Command-line arguments.
pub struct Args {
    /// Path to the configuration script.
    pub config: String,
}

/// Resolve the arguments: the configuration path is the one given on
/// the command line, or `config.lua` when none was.
pub fn parse(config_path: Option<String>) -> (a: Args)
    ensures
        a.config@ == (match config_path {
            Some(p) => p@,
            None => "config.lua"@,
        }),
{
    match config_path {
        Some(p) => Args { config: p },
        None => Args { config: String::from_str("config.lua") },
    }
}

} // verus!
