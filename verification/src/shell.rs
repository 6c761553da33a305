//! Shell families, detection, and dispatch.
//!
//! Detection is strict: the caller hands in the two environment signals
//! (the shell-family name and the postscript path) as plain values, and the
//! closed registry of supported families decides the outcome. No default
//! shell is assumed. The adapter that reads the real process environment
//! lives outside this crate.

use vstd::prelude::*;
use vstd::string::*;
use crate::bash::{bash_compile, compile_bash};
use crate::postscript::Postscript;

verus! {

/// Why detection failed.
#[derive(Debug, Clone, PartialEq, Eq)]
pub enum ShellError {
    /// The shell-family signal is absent: shell integration is not
    /// configured at all.
    UnspecifiedShell,
    /// The shell-family signal names a shell outside the supported set;
    /// the offending name is carried for diagnostics.
    UnrecognizedShell { name: String },
    /// A recognized shell was named, but the postscript-path signal is
    /// absent: the integration setup is incomplete.
    UnspecifiedPostscript,
}

/// A supported shell family together with the postscript path for the
/// current invocation.
#[derive(Debug, Clone, PartialEq, Eq)]
pub enum Shell {
    /// A POSIX-compatible Bourne-family shell.
    Bash { postscript_path: String },
}

/// The recognized value of the shell-family signal for the Bourne family.
pub open spec fn bash_name() -> Seq<char> {
    "bash"@
}

impl Shell {
    /// The postscript path this shell was constructed with.
    pub open spec fn spec_postscript_path(self) -> Seq<char> {
        match self {
            Shell::Bash { postscript_path } => postscript_path@,
        }
    }

    /// The absolute path this shell family sources for environment
    /// updates. Pure: determined by the construction inputs.
    pub fn postscript_path(&self) -> (r: &str)
        ensures
            r@ == self.spec_postscript_path(),
    {
        match self {
            Shell::Bash { postscript_path } => postscript_path.as_str(),
        }
    }

    /// The script text this shell family sources to carry out the intent.
    pub open spec fn spec_compile(self, postscript: Postscript) -> Seq<char> {
        match self {
            Shell::Bash { .. } => bash_compile(postscript),
        }
    }

    /// Renders the intent as script text for this shell family. Pure and
    /// total: every intent is renderable by every supported family, so the
    /// text is a function of the shell family and the intent alone.
    pub fn compile_postscript(&self, postscript: &Postscript) -> (r: String)
        ensures
            r@ == self.spec_compile(*postscript),
    {
        match self {
            Shell::Bash { .. } => compile_bash(postscript),
        }
    }
}

/// The shell implementation selected for this process invocation.
#[derive(Debug, Clone, PartialEq, Eq)]
pub struct CurrentShell(pub Shell);

/// Exactly when detection succeeds: the shell-family signal is present,
/// names a supported family, and the postscript-path signal is present.
pub open spec fn detect_succeeds(shell_name: Option<String>, postscript_path: Option<String>) -> bool {
    shell_name matches Some(name) && name@ == bash_name() && postscript_path is Some
}

impl CurrentShell {
    /// The postscript path of the detected shell.
    pub open spec fn spec_postscript_path(self) -> Seq<char> {
        self.0.spec_postscript_path()
    }

    /// Selects the shell implementation for a shell-family name, the
    /// registry of supported families. Unknown names are rejected with
    /// the offending name; a known name additionally needs the postscript
    /// path, whose absence is its own error.
    pub fn from_name(name: &str, postscript_path: Option<String>) -> (r: Result<
        CurrentShell,
        ShellError,
    >)
        ensures
            name@ != bash_name() ==> (r matches Err(e) && e matches ShellError::UnrecognizedShell {
                name: n,
            } && n@ == name@),
            name@ == bash_name() && postscript_path is None ==> r == Err::<
                CurrentShell,
                ShellError,
            >(ShellError::UnspecifiedPostscript),
            name@ == bash_name() ==> (postscript_path matches Some(p) ==> r matches Ok(s)
                && s.spec_postscript_path() == p@),
            r is Ok <==> (name@ == bash_name() && postscript_path is Some),
    {
        let name_string = String::from_str(name);
        let bash_string = String::from_str("bash");
        if name_string == bash_string {
            match postscript_path {
                Some(p) => Ok(CurrentShell(Shell::Bash { postscript_path: p })),
                None => Err(ShellError::UnspecifiedPostscript),
            }
        } else {
            Err(ShellError::UnrecognizedShell { name: name_string })
        }
    }

    /// Detects the current shell from the two environment signals: the
    /// shell-family name and the postscript path. Absence of the name is
    /// its own failure; otherwise the registry decides.
    pub fn detect(shell_name: Option<String>, postscript_path: Option<String>) -> (r: Result<
        CurrentShell,
        ShellError,
    >)
        ensures
            shell_name is None ==> r == Err::<CurrentShell, ShellError>(
                ShellError::UnspecifiedShell,
            ),
            shell_name matches Some(name) ==> (name@ != bash_name() ==> (r matches Err(e)
                && e matches ShellError::UnrecognizedShell { name: n } && n@ == name@)),
            shell_name matches Some(name) ==> (name@ == bash_name() && postscript_path is None
                ==> r == Err::<CurrentShell, ShellError>(ShellError::UnspecifiedPostscript)),
            shell_name matches Some(name) ==> (name@ == bash_name() ==> (postscript_path
                matches Some(p) ==> r matches Ok(s) && s.spec_postscript_path() == p@)),
            r is Ok <==> detect_succeeds(shell_name, postscript_path),
    {
        match shell_name {
            Some(name) => Self::from_name(name.as_str(), postscript_path),
            None => Err(ShellError::UnspecifiedShell),
        }
    }

    /// The postscript path of the detected shell.
    pub fn postscript_path(&self) -> (r: &str)
        ensures
            r@ == self.spec_postscript_path(),
    {
        self.0.postscript_path()
    }

    /// Renders the intent for the detected shell.
    pub fn compile_postscript(&self, postscript: &Postscript) -> (r: String)
        ensures
            r@ == self.0.spec_compile(*postscript),
    {
        self.0.compile_postscript(postscript)
    }
}

} // verus!
