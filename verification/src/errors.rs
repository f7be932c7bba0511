//! Error taxonomy of the tool, and the pipeline stages errors are tied to.

use vstd::prelude::*;

verus! {

/// The logical stages of the install pipeline.
#[derive(Clone, Copy, Debug, PartialEq, Eq, Structural)]
pub enum Stage {
    Fetching,
    Building,
    LocatingArtifact,
    Installing,
}

/// Every failure the tool can report.
#[derive(Debug)]
pub enum AurError {
    /// The platform has no resolvable user-local data directory.
    EnvironmentUnavailable,
    /// Transport failure or non-success HTTP status on index or search fetch.
    NetworkError { detail: String },
    /// The search response was not the JSON the server promises.
    ParseError { detail: String },
    /// A directory or file of the local store could not be created.
    StorageError { detail: String },
    /// Cloning a package's build recipe failed.
    CloneError { detail: String },
    /// The external build tool exited with a non-zero status.
    BuildError { detail: String },
    /// The external install tool exited with a non-zero status.
    InstallError { detail: String },
}

/// The one-line description `describe` returns for each error.
pub open spec fn describe_spec(e: AurError) -> Seq<char> {
    match e {
        AurError::EnvironmentUnavailable => "no user-local data directory is available"@,
        AurError::NetworkError { detail } => "network error: "@ + detail@,
        AurError::ParseError { detail } => "parse error: "@ + detail@,
        AurError::StorageError { detail } => "storage error: "@ + detail@,
        AurError::CloneError { detail } => "clone failed: "@ + detail@,
        AurError::BuildError { detail } => "build failed: "@ + detail@,
        AurError::InstallError { detail } => "install failed: "@ + detail@,
    }
}

impl AurError {
    /// A printable one-line description of the error.
    pub fn describe(&self) -> (r: String)
        ensures
            r@ == describe_spec(*self),
    {
        match self {
            AurError::EnvironmentUnavailable => {
                String::from_str("no user-local data directory is available")
            },
            AurError::NetworkError { detail } => {
                String::from_str("network error: ").concat(detail.as_str())
            },
            AurError::ParseError { detail } => {
                String::from_str("parse error: ").concat(detail.as_str())
            },
            AurError::StorageError { detail } => {
                String::from_str("storage error: ").concat(detail.as_str())
            },
            AurError::CloneError { detail } => {
                String::from_str("clone failed: ").concat(detail.as_str())
            },
            AurError::BuildError { detail } => {
                String::from_str("build failed: ").concat(detail.as_str())
            },
            AurError::InstallError { detail } => {
                String::from_str("install failed: ").concat(detail.as_str())
            },
        }
    }
}

} // verus!
