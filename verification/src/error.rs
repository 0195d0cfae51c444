//! Error types: a closed taxonomy with one variant per failure kind, so
//! callers can handle every case exhaustively, plus the general
//! message-carrying error used across the project.

use vstd::prelude::*;

verus! {

/// One variant per failure kind of the pipeline; no failure is ever folded
/// into another kind or silently downgraded.
#[derive(Debug, Clone, PartialEq, Eq)]
pub enum BuildError {
    /// The project manifest file is missing.
    ConfigNotFound,
    /// The project manifest file could not be parsed.
    ConfigParse,
    /// The lock file is missing or could not be parsed.
    LockFile,
    /// A network request failed outright.
    Network,
    /// A registry response did not match the expected schema; carries the
    /// raw body for diagnostics rather than being coerced to an empty list.
    Deserialization { raw_body: String },
    /// A downloaded artifact's checksum did not match the declared one.
    Integrity { expected: String, actual: String },
    /// Extracting a dependency archive failed; carries the dependency name.
    Extract { dependency: String },
    /// Merging extracted units into the build classpath failed.
    Merge { detail: String },
    /// The compiler exited with a non-zero status; carries its stderr.
    Compile { stderr: String },
    /// The packager exited with a non-zero status; carries its stderr.
    Package { stderr: String },
    /// The runtime exited with a non-zero status.
    Runtime { exit_code: i32 },
    /// A filesystem operation failed.
    Filesystem { detail: String },
    /// A project already exists where one was to be initialized.
    AlreadyExists,
    /// A queried package has no versions to download.
    NoVersions,
    /// A registry query matched no packages.
    NoPackagesFound,
    /// A package selection was not a valid index into the query result.
    SelectionOutOfRange,
    /// A dependency archive name does not carry the expected extension.
    InvalidJarName,
}

/// General error: a plain message.
#[derive(Debug, Clone)]
pub struct EspressoError {
    msg: String,
}

impl EspressoError {
    /// The message this error carries.
    pub closed spec fn spec_msg(&self) -> Seq<char> {
        self.msg@
    }

    /// Creates an error from a message.
    pub fn new(msg: &str) -> (r: EspressoError)
        ensures
            r.spec_msg() == msg@,
    {
        EspressoError { msg: msg.to_owned() }
    }

    /// Creates a new-in-box error from a message.
    pub fn nib(msg: &str) -> (r: Box<EspressoError>)
        ensures
            r.spec_msg() == msg@,
    {
        Box::new(Self::new(msg))
    }

    /// The message, for display by the caller.
    pub fn message(&self) -> (r: &str)
        ensures
            r@ == self.spec_msg(),
    {
        self.msg.as_str()
    }
}

} // verus!
