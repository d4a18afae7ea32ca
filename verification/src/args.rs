//! What a run is asked to do.

use crate::region::Region;
use vstd::prelude::*;

verus! {

/// The arguments of a run.
#[derive(Debug)]
pub struct Args {
    /// API key of the stack.
    pub api_key: String,
    /// Access token of the stack.
    pub access_token: String,
    /// Where the result is written; it is printed where there is no path.
    pub output: Option<String>,
    /// The region that serves the stack.
    pub region: Region,
    /// What is put before the name of each top-level declaration.
    pub prefix: Option<String>,
    /// What is put behind the name of each top-level declaration.
    pub postfix: Option<String>,
}

} // verus!
