//! The failures a search can report: transport failures, engine failures that
//! may wrap one, and the pairing of an engine failure with the engine's name.

use vstd::prelude::*;
use crate::text::joined;

verus! {

/// A failure of the transport under an engine.
#[derive(Debug, Clone, PartialEq, Eq)]
pub enum NetworkError {
    /// The proxy is misconfigured or the connection to it is broken.
    ProxyError(String),
    /// The connection to the upstream host timed out.
    ConnectionTimeout(String),
    /// Anything else.
    Unknown(String),
}

/// What a [`NetworkError`] says, over plain sequences.
pub ghost enum NetworkErrorKind {
    ProxyError(Seq<char>),
    ConnectionTimeout(Seq<char>),
    Unknown(Seq<char>),
}

impl View for NetworkError {
    type V = NetworkErrorKind;

    open spec fn view(&self) -> NetworkErrorKind {
        match self {
            NetworkError::ProxyError(address) => NetworkErrorKind::ProxyError(address@),
            NetworkError::ConnectionTimeout(host) => NetworkErrorKind::ConnectionTimeout(host@),
            NetworkError::Unknown(message) => NetworkErrorKind::Unknown(message@),
        }
    }
}

/// A failure of one engine's search.
#[derive(Debug, Clone, PartialEq, Eq)]
pub enum EngineErrorType {
    /// A result could not be built from the fields found on the page.
    ParseFailed,
    /// The upstream engine refused the request for its rate.
    Ratelimited,
    /// The engine found nothing for the query.
    NoResults,
    /// The search task could not be run at all.
    ExecFailed,
    /// Anything else.
    Unknown(String),
    /// The transport failed.
    Network(NetworkError),
}

/// What an [`EngineErrorType`] says, over plain sequences.
pub ghost enum EngineErrorKind {
    ParseFailed,
    Ratelimited,
    NoResults,
    ExecFailed,
    Unknown(Seq<char>),
    Network(NetworkErrorKind),
}

impl View for EngineErrorType {
    type V = EngineErrorKind;

    open spec fn view(&self) -> EngineErrorKind {
        match self {
            EngineErrorType::ParseFailed => EngineErrorKind::ParseFailed,
            EngineErrorType::Ratelimited => EngineErrorKind::Ratelimited,
            EngineErrorType::NoResults => EngineErrorKind::NoResults,
            EngineErrorType::ExecFailed => EngineErrorKind::ExecFailed,
            EngineErrorType::Unknown(message) => EngineErrorKind::Unknown(message@),
            EngineErrorType::Network(inner) => EngineErrorKind::Network(inner@),
        }
    }
}

/// An engine failure together with the engine it came from. The name is empty
/// where the engine cannot be told.
#[derive(Debug, Clone, PartialEq, Eq)]
pub struct EngineError {
    pub engine: String,
    pub source: EngineErrorType,
}

/// What an [`EngineError`] says, over plain sequences.
pub ghost struct EngineErrorView {
    pub engine: Seq<char>,
    pub source: EngineErrorKind,
}

impl View for EngineError {
    type V = EngineErrorView;

    open spec fn view(&self) -> EngineErrorView {
        EngineErrorView { engine: self.engine@, source: self.source@ }
    }
}

/// The failure that a transport error stands for: a timeout names the host
/// that did not answer, anything else keeps its message.
pub open spec fn transport_failure(
    timed_out: bool,
    host: Seq<char>,
    message: Seq<char>,
) -> NetworkErrorKind {
    if timed_out {
        NetworkErrorKind::ConnectionTimeout(host)
    } else {
        NetworkErrorKind::Unknown(message)
    }
}

impl NetworkError {
    /// Classifies a transport failure.
    pub fn from_transport(timed_out: bool, host: String, message: String) -> (e: NetworkError)
        ensures
            e@ == transport_failure(timed_out, host@, message@),
    {
        if timed_out {
            NetworkError::ConnectionTimeout(host)
        } else {
            NetworkError::Unknown(message)
        }
    }

    /// The message of this failure.
    pub open spec fn message_spec(self) -> Seq<char> {
        match self {
            NetworkError::ProxyError(address) => "Could not connect to proxy: "@ + address@,
            NetworkError::ConnectionTimeout(host) => "Request to "@ + host@ + " has timed out."@,
            NetworkError::Unknown(message) => "Unknown error occured: "@ + message@,
        }
    }

    /// The message of this failure.
    pub fn message(&self) -> (text: String)
        ensures
            text@ == self.message_spec(),
    {
        match self {
            NetworkError::ProxyError(address) => joined(
                "Could not connect to proxy: ",
                address.as_str(),
            ),
            NetworkError::ConnectionTimeout(host) => {
                let head = joined("Request to ", host.as_str());
                joined(head.as_str(), " has timed out.")
            },
            NetworkError::Unknown(message) => joined("Unknown error occured: ", message.as_str()),
        }
    }
}

impl EngineErrorType {
    /// The message of this failure.
    pub open spec fn message_spec(self) -> Seq<char> {
        match self {
            EngineErrorType::ParseFailed => "Failed to parse"@,
            EngineErrorType::Ratelimited => "Ratelimited by upstream engine"@,
            EngineErrorType::NoResults => "No results returned for query"@,
            EngineErrorType::ExecFailed => "Failed to spawn search task"@,
            EngineErrorType::Unknown(message) => "Unknown error occured: "@ + message@,
            EngineErrorType::Network(_) => "Network error occured"@,
        }
    }

    /// The message of this failure.
    pub fn message(&self) -> (text: String)
        ensures
            text@ == self.message_spec(),
    {
        match self {
            EngineErrorType::ParseFailed => "Failed to parse".to_owned(),
            EngineErrorType::Ratelimited => "Ratelimited by upstream engine".to_owned(),
            EngineErrorType::NoResults => "No results returned for query".to_owned(),
            EngineErrorType::ExecFailed => "Failed to spawn search task".to_owned(),
            EngineErrorType::Unknown(message) => joined(
                "Unknown error occured: ",
                message.as_str(),
            ),
            EngineErrorType::Network(_) => "Network error occured".to_owned(),
        }
    }

    /// Wraps a transport failure.
    pub fn from_network(inner: NetworkError) -> (e: EngineErrorType)
        ensures
            e@ == EngineErrorKind::Network(inner@),
    {
        EngineErrorType::Network(inner)
    }
}

impl EngineError {
    /// The message of this failure.
    pub fn message(&self) -> (text: String)
        ensures
            text@ == "`engine` failed to fetch results"@,
    {
        "`engine` failed to fetch results".to_owned()
    }
}

} // verus!
