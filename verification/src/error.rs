//! Error taxonomy shared by every component.

use vstd::prelude::*;

verus! {

/// Why a configuration bundle was not accepted.
#[derive(Debug, Clone, PartialEq, Eq)]
pub enum ConfigError {
    /// No configuration file exists at the expected place.
    NotFound,
    /// The file exists but could not be read.
    ReadError(String),
    /// The file is not well-formed.
    ParseError(String),
    /// The file is well-formed but breaks a rule; the text names the rule.
    ValidationError(String),
}

/// Why a source produced no reading. Always ends the current cycle.
#[derive(Debug, Clone, PartialEq, Eq)]
pub enum SourceError {
    /// The backing file does not exist.
    FileNotFound(String),
    /// The backing file exists but could not be read.
    ReadError(String),
    /// A setting of the source could not be interpreted.
    ParseError(String),
    /// The column, row or query selects nothing.
    ValueNotFound(String),
    /// What was selected is not a number.
    InvalidValueType(String),
    /// The HTTP request failed or was answered outside the 2xx range.
    HttpError(String),
    /// The tabular text is malformed.
    CsvError(String),
    /// The JSON document or the query on it is malformed.
    JsonError(String),
}

/// Failure of a single delivery attempt.
#[derive(Debug, Clone, PartialEq, Eq)]
pub enum TransportError {
    /// The connection could not be established or broke down.
    Network(String),
    /// The remote API rejected the credentials.
    AuthFailed(String),
    /// The remote API asked the caller to slow down; carries a wait hint in seconds.
    RateLimited(u64),
    /// The remote API failed on its side.
    ServerError { status: u16, message: String },
    /// The request did not complete in time.
    Timeout,
    /// The remote API answered with something that is neither success nor a known failure.
    InvalidResponse(String),
}

/// What a `SourceError` says, with its text as a sequence of characters.
pub enum SourceFailure {
    FileNotFound(Seq<char>),
    ReadError(Seq<char>),
    ParseError(Seq<char>),
    ValueNotFound(Seq<char>),
    InvalidValueType(Seq<char>),
    HttpError(Seq<char>),
    CsvError(Seq<char>),
    JsonError(Seq<char>),
}

impl View for SourceError {
    type V = SourceFailure;

    open spec fn view(&self) -> SourceFailure {
        match self {
            SourceError::FileNotFound(text) => SourceFailure::FileNotFound(text@),
            SourceError::ReadError(text) => SourceFailure::ReadError(text@),
            SourceError::ParseError(text) => SourceFailure::ParseError(text@),
            SourceError::ValueNotFound(text) => SourceFailure::ValueNotFound(text@),
            SourceError::InvalidValueType(text) => SourceFailure::InvalidValueType(text@),
            SourceError::HttpError(text) => SourceFailure::HttpError(text@),
            SourceError::CsvError(text) => SourceFailure::CsvError(text@),
            SourceError::JsonError(text) => SourceFailure::JsonError(text@),
        }
    }
}

/// What a `TransportError` says, with its texts as sequences of characters.
pub enum TransportFailure {
    Network(Seq<char>),
    AuthFailed(Seq<char>),
    RateLimited(u64),
    ServerError { status: u16, message: Seq<char> },
    Timeout,
    InvalidResponse(Seq<char>),
}

impl View for TransportError {
    type V = TransportFailure;

    open spec fn view(&self) -> TransportFailure {
        match self {
            TransportError::Network(text) => TransportFailure::Network(text@),
            TransportError::AuthFailed(text) => TransportFailure::AuthFailed(text@),
            TransportError::RateLimited(seconds) => TransportFailure::RateLimited(*seconds),
            TransportError::ServerError { status, message } => TransportFailure::ServerError {
                status: *status,
                message: message@,
            },
            TransportError::Timeout => TransportFailure::Timeout,
            TransportError::InvalidResponse(text) => TransportFailure::InvalidResponse(text@),
        }
    }
}

impl TransportError {
    /// Whether a later attempt may succeed where this one failed.
    pub open spec fn spec_is_retriable(&self) -> bool {
        match self {
            TransportError::Network(_) => true,
            TransportError::RateLimited(_) => true,
            TransportError::Timeout => true,
            TransportError::ServerError { status, .. } => *status >= 500,
            TransportError::AuthFailed(_) => false,
            TransportError::InvalidResponse(_) => false,
        }
    }

    /// Transient failures (network, timeout, rate limit, 5xx) are retriable;
    /// everything else is terminal.
    #[verifier::when_used_as_spec(spec_is_retriable)]
    pub fn is_retriable(&self) -> (r: bool)
        ensures
            r == self.spec_is_retriable(),
    {
        match self {
            TransportError::Network(_) | TransportError::RateLimited(_) | TransportError::Timeout => true,
            TransportError::ServerError { status, .. } => *status >= 500,
            _ => false,
        }
    }
}

/// Failure of the self-update operation.
#[derive(Debug, Clone, PartialEq, Eq)]
pub enum UpdateError {
    /// It could not be found out whether a release is due.
    CheckFailed(String),
    /// The release could not be fetched.
    DownloadFailed(String),
    /// The download is not the file that the release names; both digests
    /// are in lower-case hexadecimal.
    ChecksumMismatch { expected: String, actual: String },
    /// The download could not be put in the place of the running program.
    InstallFailed(String),
    /// A version number could not be read.
    InvalidVersion(String),
}

/// What an `UpdateError` says, with its texts as sequences of characters.
pub enum UpdateFailure {
    CheckFailed(Seq<char>),
    DownloadFailed(Seq<char>),
    ChecksumMismatch { expected: Seq<char>, actual: Seq<char> },
    InstallFailed(Seq<char>),
    InvalidVersion(Seq<char>),
}

impl View for UpdateError {
    type V = UpdateFailure;

    open spec fn view(&self) -> UpdateFailure {
        match self {
            UpdateError::CheckFailed(text) => UpdateFailure::CheckFailed(text@),
            UpdateError::DownloadFailed(text) => UpdateFailure::DownloadFailed(text@),
            UpdateError::ChecksumMismatch { expected, actual } => UpdateFailure::ChecksumMismatch {
                expected: expected@,
                actual: actual@,
            },
            UpdateError::InstallFailed(text) => UpdateFailure::InstallFailed(text@),
            UpdateError::InvalidVersion(text) => UpdateFailure::InvalidVersion(text@),
        }
    }
}

/// Failure while registering with, or querying, the platform's service manager.
#[derive(Debug, Clone, PartialEq, Eq)]
pub enum ServiceError {
    InstallFailed(String),
    UninstallFailed(String),
    StartFailed(String),
    StopFailed(String),
    /// The service manager does not know the service.
    NotFound,
    PermissionDenied(String),
}

/// Any failure the agent can report, tagged by the component it came from.
#[derive(Debug, Clone, PartialEq, Eq)]
pub enum AgentError {
    Config(ConfigError),
    Source(SourceError),
    Transport(TransportError),
    Update(UpdateError),
    Service(ServiceError),
}

impl From<ConfigError> for AgentError {
    fn from(e: ConfigError) -> (r: AgentError)
        ensures
            r == AgentError::Config(e),
    {
        AgentError::Config(e)
    }
}

impl vstd::std_specs::convert::FromSpecImpl<ConfigError> for AgentError {
    open spec fn obeys_from_spec() -> bool {
        true
    }

    open spec fn from_spec(e: ConfigError) -> AgentError {
        AgentError::Config(e)
    }
}

impl From<SourceError> for AgentError {
    fn from(e: SourceError) -> (r: AgentError)
        ensures
            r == AgentError::Source(e),
    {
        AgentError::Source(e)
    }
}

impl vstd::std_specs::convert::FromSpecImpl<SourceError> for AgentError {
    open spec fn obeys_from_spec() -> bool {
        true
    }

    open spec fn from_spec(e: SourceError) -> AgentError {
        AgentError::Source(e)
    }
}

impl From<TransportError> for AgentError {
    fn from(e: TransportError) -> (r: AgentError)
        ensures
            r == AgentError::Transport(e),
    {
        AgentError::Transport(e)
    }
}

impl vstd::std_specs::convert::FromSpecImpl<TransportError> for AgentError {
    open spec fn obeys_from_spec() -> bool {
        true
    }

    open spec fn from_spec(e: TransportError) -> AgentError {
        AgentError::Transport(e)
    }
}

impl From<UpdateError> for AgentError {
    fn from(e: UpdateError) -> (r: AgentError)
        ensures
            r == AgentError::Update(e),
    {
        AgentError::Update(e)
    }
}

impl vstd::std_specs::convert::FromSpecImpl<UpdateError> for AgentError {
    open spec fn obeys_from_spec() -> bool {
        true
    }

    open spec fn from_spec(e: UpdateError) -> AgentError {
        AgentError::Update(e)
    }
}

impl From<ServiceError> for AgentError {
    fn from(e: ServiceError) -> (r: AgentError)
        ensures
            r == AgentError::Service(e),
    {
        AgentError::Service(e)
    }
}

impl vstd::std_specs::convert::FromSpecImpl<ServiceError> for AgentError {
    open spec fn obeys_from_spec() -> bool {
        true
    }

    open spec fn from_spec(e: ServiceError) -> AgentError {
        AgentError::Service(e)
    }
}

} // verus!
