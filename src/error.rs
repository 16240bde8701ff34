use vstd::prelude::*;

verus! {

/// Every failure the library can report.
#[derive(Debug, Clone, PartialEq, Eq)]
pub enum Error {
    /// A program could not be spawned (not found, permission denied).
    Process(String),
    /// A required command exited with a non-zero status; holds its context.
    CommandFailed(String),
    /// A required configuration field is absent; holds the field's name.
    MissingConfiguration(String),
    /// The user refused an interactive confirmation.
    UserDeclined,
    /// The dependency can only be installed by hand on this host.
    UnsupportedPlatform,
    /// The readiness poll ran out of attempts.
    StartupTimeout,
    /// Remote mode was selected but no API key is configured.
    AuthenticationMissing,
    /// The model backend failed or answered with a non-success status.
    Backend(String),
    /// A process printed output that is not valid text.
    Encoding,
    /// A mode name that is not one of the known modes.
    InvalidMode(String),
    /// The endpoint could not be parsed as a URL.
    InvalidEndpoint(String),
}

/// The mathematical model of an [`Error`]: texts become character sequences.
pub ghost enum ErrorModel {
    Process(Seq<char>),
    CommandFailed(Seq<char>),
    MissingConfiguration(Seq<char>),
    UserDeclined,
    UnsupportedPlatform,
    StartupTimeout,
    AuthenticationMissing,
    Backend(Seq<char>),
    Encoding,
    InvalidMode(Seq<char>),
    InvalidEndpoint(Seq<char>),
}

impl View for Error {
    type V = ErrorModel;

    open spec fn view(&self) -> ErrorModel {
        match self {
            Error::Process(m) => ErrorModel::Process(m@),
            Error::CommandFailed(m) => ErrorModel::CommandFailed(m@),
            Error::MissingConfiguration(f) => ErrorModel::MissingConfiguration(f@),
            Error::UserDeclined => ErrorModel::UserDeclined,
            Error::UnsupportedPlatform => ErrorModel::UnsupportedPlatform,
            Error::StartupTimeout => ErrorModel::StartupTimeout,
            Error::AuthenticationMissing => ErrorModel::AuthenticationMissing,
            Error::Backend(m) => ErrorModel::Backend(m@),
            Error::Encoding => ErrorModel::Encoding,
            Error::InvalidMode(m) => ErrorModel::InvalidMode(m@),
            Error::InvalidEndpoint(m) => ErrorModel::InvalidEndpoint(m@),
        }
    }
}

/// A result with its error replaced by the error's model.
pub open spec fn lift<T>(r: Result<T, Error>) -> Result<T, ErrorModel> {
    match r {
        Ok(v) => Ok(v),
        Err(e) => Err(e@),
    }
}

/// A failure of one dependency, carrying the dependency's name for context.
#[derive(Debug, Clone, PartialEq, Eq)]
pub struct DependencyFailure {
    pub dependency: String,
    pub error: Error,
}

} // verus!
