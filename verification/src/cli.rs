//! The command-line options of the summarizing program, as plain data.

use vstd::prelude::*;

verus! {

/// Options accepted on the command line.
#[derive(Debug, PartialEq)]
pub struct Args {
    /// An optional configuration file path.
    pub config: Option<String>,
}

impl Args {
    pub fn new(config: Option<String>) -> (r: Args)
        ensures
            r.config == config,
    {
        Args { config }
    }
}

} // verus!
