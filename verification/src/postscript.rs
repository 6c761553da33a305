//! The activation intents a caller may request.

use vstd::prelude::*;
use crate::version::Version;

verus! {

/// An environment-mutation operation for the sourced postscript to carry
/// out. Exactly one form is active per request.
pub enum Postscript {
    /// Toolchain turned on: export an augmented `PATH` and point the
    /// manager's home-directory variable at the user's home.
    Activate(String),
    /// Toolchain turned off: export `PATH` back to the given value and
    /// unset the home-directory variable.
    Deactivate(String),
    /// One tool's active version changed: export the tool's version
    /// variable, named from the upper-cased tool name, set to the
    /// version's canonical string.
    ToolVersion { tool: String, version: Version },
}

} // verus!
