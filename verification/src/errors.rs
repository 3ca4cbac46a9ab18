//! The library's error type: every failure aborts the current operation and
//! surfaces to the caller, tagged with the artifact, path or tool concerned.

use vstd::prelude::*;
use vstd::string::StringExecFns;

verus! {

/// One of the three rendered artifacts.
#[derive(Clone, Copy, PartialEq, Eq, Structural, Debug)]
pub enum Artifact {
    Header,
    Library,
    ModuleMap,
}

/// Why an operation aborted.
#[derive(Debug)]
pub enum BindingsError {
    /// The template layer failed to produce the named artifact.
    Render(Artifact),
    /// A directory or file could not be created or written.
    Io { path: String },
    /// An external tool could not be spawned, or exited unsuccessfully.
    Toolchain { tool: String },
}

impl BindingsError {
    /// A descriptive failure message naming the artifact, path or tool.
    pub fn message(&self) -> (m: String)
        ensures
            m@ == match *self {
                BindingsError::Render(Artifact::Header) => "failed to render Swift bridging header"@,
                BindingsError::Render(Artifact::Library) => "failed to render Swift library"@,
                BindingsError::Render(Artifact::ModuleMap) => "failed to render Swift module map"@,
                BindingsError::Io { path } => "I/O error at "@ + path@,
                BindingsError::Toolchain { tool } => "running `"@ + tool@ + "` failed"@,
            },
    {
        match self {
            BindingsError::Render(Artifact::Header) => {
                String::from_str("failed to render Swift bridging header")
            },
            BindingsError::Render(Artifact::Library) => {
                String::from_str("failed to render Swift library")
            },
            BindingsError::Render(Artifact::ModuleMap) => {
                String::from_str("failed to render Swift module map")
            },
            BindingsError::Io { path } => {
                let m = String::from_str("I/O error at ");
                m.concat(path.as_str())
            },
            BindingsError::Toolchain { tool } => {
                let m = String::from_str("running `");
                let m = m.concat(tool.as_str());
                m.concat("` failed")
            },
        }
    }
}

} // verus!
