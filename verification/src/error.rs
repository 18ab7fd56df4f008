//! The failures that the library reports, by kind.

use vstd::prelude::*;

verus! {

/// A stored credential or a configuration that does not have the expected shape.
#[derive(Debug, Clone, Copy, PartialEq, Eq, Structural)]
pub enum FormatError {
    /// The text is not base64 in the standard alphabet without padding.
    NotBase64,
    /// The text decodes to fewer bytes than a key and a nonce take.
    TooShort,
}

/// A failure of the random generator or of the authenticated cipher.
#[derive(Debug, Clone, Copy, PartialEq, Eq, Structural)]
pub enum CryptoError {
    /// The system's random generator gave no bytes.
    RandomUnavailable,
    /// The cipher refused to seal, or the sealed package is too long to be stored as text.
    SealFailed,
    /// The sealed bytes do not authenticate under the key and nonce stored with them.
    OpenFailed,
    /// The opened bytes are not UTF-8.
    NotUtf8,
}

/// A failure in the exchange with the issue tracker.
#[derive(Debug, Clone, PartialEq, Eq)]
pub enum JiraApiError {
    /// The request got no response at all.
    Transport(String),
    /// The response came with a status outside 200..=299.
    Status(u16),
    /// The response body is not the JSON document that was expected.
    BadBody(String),
}

/// A failure of the `git` subprocess.
#[derive(Debug, Clone, PartialEq, Eq)]
pub enum GitError {
    /// The subprocess could not be started.
    Spawn(String),
    /// `git rev-parse` ended with the given exit code (`None` when a signal ended it).
    BranchFailed(Option<i32>),
    /// `git commit` ended with the given exit code (`None` when a signal ended it).
    CommitFailed(Option<i32>),
}

/// Every failure an operation of this library can report.
#[derive(Debug, Clone, PartialEq, Eq)]
pub enum AppError {
    /// Reading or writing a file or the terminal failed.
    Io(String),
    /// A stored credential has the wrong shape.
    Format(FormatError),
    /// Sealing or opening a credential failed.
    Crypto(CryptoError),
    /// The tracker rejected the login with the given HTTP status.
    Auth(u16),
    /// The tracker could not be reached or gave an unusable answer.
    JiraApi(JiraApiError),
    /// `git` failed.
    Git(GitError),
    /// A required setting is absent; the caller is expected to ask the user for it.
    ConfigMissing,
    /// The branch name holds no issue id with the configured prefix.
    JiraIdNotFound,
    /// Something was handed in that the step in progress cannot have led to.
    Unexpected,
}

} // verus!
