//! Inspecting access tokens.

use vstd::prelude::*;

verus! {

/// The token to inspect.
#[derive(Debug)]
pub struct Args {
    pub token: String,
}

} // verus!
