//! The parsed invocation: what to launch, and from which image.
//!
//! Command-line parsing itself happens outside the library; the library
//! receives the already-split values.

use vstd::prelude::*;

verus! {

/// One launch request.
#[derive(Debug)]
pub struct Opts {
    /// The image reference, `name` or `name:tag`.
    pub image: String,
    /// The program to run inside the container, with its arguments.
    pub command: Vec<String>,
}

} // verus!
