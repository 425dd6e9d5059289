//! The command-line surface, as plain data. The binary front end parses
//! the process arguments into this shape.

use vstd::prelude::*;

verus! {

/// What the command line selects: the container to read, and whether to
/// inspect the header only instead of playing the payload.
pub struct Cli {
    pub input: String,
    pub header: bool,
}

} // verus!
