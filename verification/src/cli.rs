//! The command line.

use vstd::prelude::*;

verus! {

/// The command line as the operator gave it.
pub struct Cli {
    /// The directory to search in.
    pub path: String,
    /// The digest to search for.
    pub hash: String,
    /// Skip symbolic links.
    pub ignore_symlinks: bool,
    /// Scan subdirectories.
    pub recursive: bool,
    /// Ask for confirmation before each deletion.
    pub interactive: bool,
    /// Report more.
    pub verbose: bool,
}

} // verus!
