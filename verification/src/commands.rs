//! What the command line asks the previewer to do, as plain data.

use vstd::prelude::*;

verus! {

/// The parsed command line.
#[derive(Debug)]
pub struct Args {
    pub action: Action,
}

/// The actions the previewer offers.
#[derive(Debug)]
pub enum Action {
    /// Serve a directory of issue form documents for preview on a local
    /// port.
    Preview { directory: String, port: u16 },
}

} // verus!
