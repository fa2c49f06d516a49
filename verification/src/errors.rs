//! Errors that callers may wish to tell apart.
use vstd::prelude::*;

verus! {

/// The four ways in which a load can fail, without the message.
#[derive(Clone, Copy, Debug, PartialEq, Eq, Structural)]
pub enum ErrorKind {
    ProfileMissing,
    InvalidProfile,
    InvalidCookieStore,
    InvalidRecovery,
}

/// Why a load of browser cookies failed. Each variant carries a message
/// for people; programs go by the variant.
#[derive(Debug)]
pub enum BrowsercookieError {
    /// The master profile configuration does not exist.
    ProfileMissing(String),
    /// The master profile configuration is not valid ini text.
    InvalidProfile(String),
    /// No cookie source of a requested browser could be used.
    InvalidCookieStore(String),
    /// The recovery snapshot is not a valid container.
    InvalidRecovery(String),
}

impl BrowsercookieError {
    /// The variant of this error.
    pub open spec fn spec_kind(&self) -> ErrorKind {
        match self {
            BrowsercookieError::ProfileMissing(_) => ErrorKind::ProfileMissing,
            BrowsercookieError::InvalidProfile(_) => ErrorKind::InvalidProfile,
            BrowsercookieError::InvalidCookieStore(_) => ErrorKind::InvalidCookieStore,
            BrowsercookieError::InvalidRecovery(_) => ErrorKind::InvalidRecovery,
        }
    }

    /// The variant of this error.
    #[verifier::when_used_as_spec(spec_kind)]
    pub fn kind(&self) -> (kind: ErrorKind)
        ensures
            kind == self.spec_kind(),
    {
        match self {
            BrowsercookieError::ProfileMissing(_) => ErrorKind::ProfileMissing,
            BrowsercookieError::InvalidProfile(_) => ErrorKind::InvalidProfile,
            BrowsercookieError::InvalidCookieStore(_) => ErrorKind::InvalidCookieStore,
            BrowsercookieError::InvalidRecovery(_) => ErrorKind::InvalidRecovery,
        }
    }

    /// An error of the given kind with the given message.
    pub fn new(kind: ErrorKind, message: &str) -> (error: BrowsercookieError)
        ensures
            error.kind() == kind,
            error.spec_message() == message@,
    {
        let text = message.to_owned();
        match kind {
            ErrorKind::ProfileMissing => BrowsercookieError::ProfileMissing(text),
            ErrorKind::InvalidProfile => BrowsercookieError::InvalidProfile(text),
            ErrorKind::InvalidCookieStore => BrowsercookieError::InvalidCookieStore(text),
            ErrorKind::InvalidRecovery => BrowsercookieError::InvalidRecovery(text),
        }
    }

    /// The message that the error carries.
    pub open spec fn spec_message(&self) -> Seq<char> {
        match self {
            BrowsercookieError::ProfileMissing(m) => m@,
            BrowsercookieError::InvalidProfile(m) => m@,
            BrowsercookieError::InvalidCookieStore(m) => m@,
            BrowsercookieError::InvalidRecovery(m) => m@,
        }
    }

    /// The message that the error carries.
    pub fn message(&self) -> (text: &str)
        ensures
            text@ == self.spec_message(),
    {
        match self {
            BrowsercookieError::ProfileMissing(m) => m.as_str(),
            BrowsercookieError::InvalidProfile(m) => m.as_str(),
            BrowsercookieError::InvalidCookieStore(m) => m.as_str(),
            BrowsercookieError::InvalidRecovery(m) => m.as_str(),
        }
    }

    /// The one-line description shared by every error of this library.
    pub fn description(&self) -> (text: &'static str)
        ensures
            text@ == "Error in fetching browsercookies"@,
    {
        "Error in fetching browsercookies"
    }
}

} // verus!
